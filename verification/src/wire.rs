//! The wire format of content: an object with a `type` field and, for text
//! only, a `value` field.

use crate::content::Content;
use crate::content::ContentView;
use vstd::prelude::*;
use vstd::string::StringExecFns;

verus! {

/// What stands for one character inside a JSON string literal: the double
/// quote and the backslash behind a backslash; backspace, tab, line feed,
/// form feed and carriage return as `\b`, `\t`, `\n`, `\f`, `\r`; any other
/// character below the space as `\u00` and its two digits in base sixteen,
/// in lower case; every other character as it is.
pub open spec fn escape_of(c: char) -> Seq<char> {
    let code = c as u32;
    if c == '"' {
        seq!['\\', '"']
    } else if c == '\\' {
        seq!['\\', '\\']
    } else if code == 0x08 {
        seq!['\\', 'b']
    } else if code == 0x09 {
        seq!['\\', 't']
    } else if code == 0x0a {
        seq!['\\', 'n']
    } else if code == 0x0c {
        seq!['\\', 'f']
    } else if code == 0x0d {
        seq!['\\', 'r']
    } else if code < 0x20 {
        seq![
            '\\',
            'u',
            '0',
            '0',
            "0123456789abcdef"@[code as int / 16],
            "0123456789abcdef"@[code as int % 16],
        ]
    } else {
        seq![c]
    }
}

/// The characters of a text, each as it stands inside a JSON string
/// literal.
pub open spec fn escaped(text: Seq<char>) -> Seq<char>
    decreases text.len(),
{
    if text.len() == 0 {
        Seq::<char>::empty()
    } else {
        escaped(text.drop_last()) + escape_of(text.last())
    }
}

/// The JSON string literal of a text: the text between double quotes, with
/// the characters that JSON does not take as they are written as escapes.
pub open spec fn json_string(text: Seq<char>) -> Seq<char> {
    seq!['"'] + escaped(text) + seq!['"']
}

/// `serde_json::Error`, carried as it comes.
#[verifier::external_type_specification]
#[verifier::external_body]
pub struct ExJsonError(serde_json::Error);

/// `serde_json::to_string` on a text: it always succeeds, and what it
/// returns is the JSON string literal of the text.
#[verifier::external_body]
fn quote(text: &str) -> (quoted: Result<String, serde_json::Error>)
    ensures
        quoted is Ok,
        quoted matches Ok(literal) ==> literal@ == json_string(text@),
{
    serde_json::to_string(text)
}

/// The `type` field of the content's wire object.
pub open spec fn tag_of(content: ContentView) -> Seq<char> {
    match content {
        ContentView::UTF8(_) => "utf8"@,
        ContentView::Binary => "binary"@,
        ContentView::Large => "large"@,
    }
}

/// The `value` field of the content's wire object: the text of text
/// content. Binary and oversized content have no such field.
pub open spec fn value_of(content: ContentView) -> Option<Seq<char>> {
    match content {
        ContentView::UTF8(text) => Some(text),
        ContentView::Binary => None,
        ContentView::Large => None,
    }
}

/// The content that a wire object with these two fields stands for, if any.
pub open spec fn content_of(tag: Seq<char>, value: Option<Seq<char>>) -> Option<ContentView> {
    if tag == "utf8"@ {
        match value {
            Some(text) => Some(ContentView::UTF8(text)),
            None => None,
        }
    } else if tag == "binary"@ && value is None {
        Some(ContentView::Binary)
    } else if tag == "large"@ && value is None {
        Some(ContentView::Large)
    } else {
        None
    }
}

/// The text of a wire object with the given `type` and, where there is one,
/// the given `value`, which is already a JSON string literal.
pub open spec fn object_text(tag: Seq<char>, literal: Option<Seq<char>>) -> Seq<char> {
    match literal {
        Some(value) => "{\"type\":\""@ + tag + "\",\"value\":"@ + value + "}"@,
        None => "{\"type\":\""@ + tag + "\"}"@,
    }
}

/// The wire text of content.
pub open spec fn json_of(content: ContentView) -> Seq<char> {
    match value_of(content) {
        Some(text) => object_text(tag_of(content), Some(json_string(text))),
        None => object_text(tag_of(content), None),
    }
}

proof fn lemma_tags_differ()
    ensures
        "utf8"@ != "binary"@,
        "utf8"@ != "large"@,
        "binary"@ != "large"@,
{
    reveal_strlit("utf8");
    reveal_strlit("binary");
    reveal_strlit("large");
    assert("utf8"@.len() == 4);
    assert("binary"@.len() == 6);
    assert("large"@.len() == 5);
}

/// Content goes to its wire object and back unchanged.
pub proof fn lemma_wire_round_trip(content: ContentView)
    ensures
        content_of(tag_of(content), value_of(content)) == Some(content),
{
    lemma_tags_differ();
}

/// A wire object that stands for content is the wire object of that content:
/// no two wire objects stand for the same content.
pub proof fn lemma_wire_object_unique(tag: Seq<char>, value: Option<Seq<char>>)
    requires
        content_of(tag, value) is Some,
    ensures
        tag_of(content_of(tag, value)->0) == tag,
        value_of(content_of(tag, value)->0) == value,
{
    lemma_tags_differ();
}

/// Writes a wire object from its `type` and, where there is one, its
/// `value` as a JSON string literal.
pub fn write_object(tag: &str, literal: Option<&str>) -> (text: String)
    ensures
        text@ == object_text(
            tag@,
            match literal {
                Some(value) => Some(value@),
                None => None,
            },
        ),
{
    let mut text = String::from_str("{\"type\":\"");
    text.append(tag);
    match literal {
        Some(value) => {
            text.append("\",\"value\":");
            text.append(value);
            text.append("}");
        },
        None => {
            text.append("\"}");
        },
    }
    text
}

impl Content {
    /// The `type` field of the wire object.
    pub fn type_tag(&self) -> (tag: &'static str)
        ensures
            tag@ == tag_of(self@),
    {
        match self {
            Content::UTF8(_) => "utf8",
            Content::Binary => "binary",
            Content::Large => "large",
        }
    }

    /// The `value` field of the wire object, where it has one.
    pub fn wire_value(&self) -> (value: Option<&str>)
        ensures
            match value {
                Some(text) => value_of(self@) == Some(text@),
                None => value_of(self@) is None,
            },
    {
        match self {
            Content::UTF8(text) => Some(text.as_str()),
            Content::Binary => None,
            Content::Large => None,
        }
    }

    /// The content that a wire object stands for. An object with another
    /// `type`, text without a `value`, or a `value` on anything but text
    /// stands for nothing.
    pub fn from_wire(tag: &str, value: Option<String>) -> (content: Option<Content>)
        ensures
            match content {
                Some(c) => content_of(
                    tag@,
                    match value {
                        Some(text) => Some(text@),
                        None => None,
                    },
                ) == Some(c@),
                None => content_of(
                    tag@,
                    match value {
                        Some(text) => Some(text@),
                        None => None,
                    },
                ) is None,
            },
    {
        let given = tag.to_owned();
        if given == "utf8".to_owned() {
            match value {
                Some(text) => Some(Content::UTF8(text)),
                None => None,
            }
        } else if given == "binary".to_owned() {
            match value {
                Some(_) => None,
                None => Some(Content::Binary),
            }
        } else if given == "large".to_owned() {
            match value {
                Some(_) => None,
                None => Some(Content::Large),
            }
        } else {
            None
        }
    }

    /// The wire text of the content. There always is one.
    pub fn to_json(&self) -> (text: Result<String, serde_json::Error>)
        ensures
            text is Ok,
            text matches Ok(json) ==> json@ == json_of(self@),
    {
        match self.wire_value() {
            Some(value) => match quote(value) {
                Ok(literal) => Ok(write_object(self.type_tag(), Some(literal.as_str()))),
                Err(e) => Err(e),
            },
            None => Ok(write_object(self.type_tag(), None)),
        }
    }
}

} // verus!
