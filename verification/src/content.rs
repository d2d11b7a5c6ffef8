//! Classification of file content as text, binary or oversized.

use vstd::prelude::*;
use vstd::std_specs::convert::FromSpecImpl;
use vstd::std_specs::convert::TryFromSpecImpl;
use vstd::string::StringSliceAdditionalSpecFns;
use vstd::utf8::*;

verus! {

/// Largest size in bytes, exclusive, of content that is still inspected: 10 MiB.
pub const MAX_SIZE: usize = 10485760;

/// What a file holds, as far as a view hands it out.
#[derive(Debug, Clone, PartialEq)]
pub enum Content {
    /// Valid UTF-8 text below the size limit, with the decoded text.
    UTF8(String),
    /// Bytes below the size limit that are not valid UTF-8.
    Binary,
    /// Content of `MAX_SIZE` bytes or more; its bytes are not kept.
    Large,
}

/// The mathematical value of a `Content`.
pub enum ContentView {
    UTF8(Seq<char>),
    Binary,
    Large,
}

impl View for Content {
    type V = ContentView;

    open spec fn view(&self) -> ContentView {
        match self {
            Content::UTF8(text) => ContentView::UTF8(text@),
            Content::Binary => ContentView::Binary,
            Content::Large => ContentView::Large,
        }
    }
}

/// The classification of a byte sequence: the size limit is tested first,
/// then the encoding.
pub open spec fn classify(bytes: Seq<u8>) -> ContentView {
    if bytes.len() >= MAX_SIZE {
        ContentView::Large
    } else if valid_utf8(bytes) {
        ContentView::UTF8(decode_utf8(bytes))
    } else {
        ContentView::Binary
    }
}

/// `String::from_utf8` on a copy of `bytes`: the text that the bytes encode,
/// or `None` where they are not valid UTF-8.
#[verifier::external_body]
fn decode_text(bytes: &[u8]) -> (text: Option<String>)
    ensures
        text is Some <==> valid_utf8(bytes@),
        text matches Some(t) ==> t@ == decode_utf8(bytes@),
{
    match String::from_utf8(bytes.to_vec()) {
        Ok(text) => Some(text),
        Err(_) => None,
    }
}

/// The classification of content whose size was measured before its bytes
/// were looked at.
pub open spec fn classify_sized(size: nat, bytes: Seq<u8>) -> ContentView {
    if size >= MAX_SIZE {
        ContentView::Large
    } else {
        classify(bytes)
    }
}

impl Content {
    /// Classifies content of the given size: content measured at `MAX_SIZE`
    /// bytes or more is `Large`, and `bytes` is then not looked at.
    pub fn from_sized(size: usize, bytes: &[u8]) -> (content: Content)
        ensures
            content@ == classify_sized(size as nat, bytes@),
    {
        if size >= MAX_SIZE {
            Content::Large
        } else {
            Content::from_bytes(bytes)
        }
    }

    /// Classifies `bytes`. Content of `MAX_SIZE` bytes or more is `Large`
    /// whatever it holds; shorter content is text where it is valid UTF-8,
    /// with exactly the text it encodes, and binary where it is not.
    pub fn from_bytes(bytes: &[u8]) -> (content: Content)
        ensures
            content@ == classify(bytes@),
            bytes@.len() >= MAX_SIZE ==> content@ == ContentView::Large,
            bytes@.len() < MAX_SIZE && valid_utf8(bytes@) ==> content@ == ContentView::UTF8(
                decode_utf8(bytes@),
            ),
            bytes@.len() < MAX_SIZE && !valid_utf8(bytes@) ==> content@ == ContentView::Binary,
    {
        if bytes.len() >= MAX_SIZE {
            Content::Large
        } else {
            match decode_text(bytes) {
                Some(text) => Content::UTF8(text),
                None => Content::Binary,
            }
        }
    }
}

/// Why a `Content` could not be turned into a value of another type.
#[derive(Debug)]
pub enum FromError {
    /// The text is not a decimal number that fits the target type.
    ParseInt(std::num::ParseIntError),
    /// The text is neither `true` nor `false`.
    ParseBool(std::str::ParseBoolError),
    /// The content is binary.
    Binary,
    /// The content is too large.
    Large,
}

/// The variant of a `FromError`, without what it carries.
pub enum FromErrorKind {
    ParseInt,
    ParseBool,
    Binary,
    Large,
}

impl View for FromError {
    type V = FromErrorKind;

    open spec fn view(&self) -> FromErrorKind {
        match self {
            FromError::ParseInt(_) => FromErrorKind::ParseInt,
            FromError::ParseBool(_) => FromErrorKind::ParseBool,
            FromError::Binary => FromErrorKind::Binary,
            FromError::Large => FromErrorKind::Large,
        }
    }
}

/// `std::num::ParseIntError`, carried as it comes.
#[verifier::external_type_specification]
#[verifier::external_body]
pub struct ExParseIntError(std::num::ParseIntError);

/// `std::str::ParseBoolError`, carried as it comes.
#[verifier::external_type_specification]
#[verifier::external_body]
pub struct ExParseBoolError(std::str::ParseBoolError);

/// Whether `c` is one of the ten digits `0` to `9`.
pub open spec fn is_digit(c: char) -> bool {
    0x30 <= c as u32 <= 0x39
}

/// The number that a run of digits writes in base ten.
pub open spec fn digits_value(digits: Seq<char>) -> nat
    decreases digits.len(),
{
    if digits.len() == 0 {
        0
    } else {
        digits_value(digits.drop_last()) * 10 + (digits.last() as u32 - 0x30) as nat
    }
}

/// The text without the one `+` that may lead it.
pub open spec fn unsigned_part(text: Seq<char>) -> Seq<char> {
    if text.len() > 0 && text[0] == '+' {
        text.skip(1)
    } else {
        text
    }
}

/// Whether the text is a decimal number: an optional `+`, then one digit or
/// more and nothing else.
pub open spec fn is_decimal(text: Seq<char>) -> bool {
    let digits = unsigned_part(text);
    digits.len() > 0 && forall|i: int| 0 <= i < digits.len() ==> is_digit(#[trigger] digits[i])
}

/// Whether the text is a decimal number that is not above `max`.
pub open spec fn writes_at_most(text: Seq<char>, max: nat) -> bool {
    is_decimal(text) && decimal_value(text) <= max
}

/// The number that a decimal text writes.
pub open spec fn decimal_value(text: Seq<char>) -> nat {
    digits_value(unsigned_part(text))
}

/// `str::parse::<usize>`: succeeds on the decimal numbers that fit a
/// `usize`, with the number written, and fails on every other text.
#[verifier::external_body]
fn parse_usize(text: &str) -> (parsed: Result<usize, std::num::ParseIntError>)
    ensures
        parsed is Ok <==> writes_at_most(text@, usize::MAX as nat),
        parsed matches Ok(n) ==> n == decimal_value(text@),
{
    text.parse::<usize>()
}

/// `str::parse::<u64>`: succeeds on the decimal numbers that fit a `u64`,
/// with the number written, and fails on every other text.
#[verifier::external_body]
fn parse_u64(text: &str) -> (parsed: Result<u64, std::num::ParseIntError>)
    ensures
        parsed is Ok <==> writes_at_most(text@, u64::MAX as nat),
        parsed matches Ok(n) ==> n == decimal_value(text@),
{
    text.parse::<u64>()
}

/// `str::parse::<u128>`: succeeds on the decimal numbers that fit a `u128`,
/// with the number written, and fails on every other text.
#[verifier::external_body]
fn parse_u128(text: &str) -> (parsed: Result<u128, std::num::ParseIntError>)
    ensures
        parsed is Ok <==> writes_at_most(text@, u128::MAX as nat),
        parsed matches Ok(n) ==> n == decimal_value(text@),
{
    text.parse::<u128>()
}

/// `str::parse::<bool>`: `true` and `false` are the only texts accepted.
#[verifier::external_body]
fn parse_bool(text: &str) -> (parsed: Result<bool, std::str::ParseBoolError>)
    ensures
        parsed matches Ok(b) ==> text@ == (if b { "true"@ } else { "false"@ }),
        parsed is Err ==> text@ != "true"@ && text@ != "false"@,
{
    text.parse::<bool>()
}

/// What turning content into an unsigned number of at most `max` gives.
pub open spec fn number_of(content: ContentView, max: nat) -> Result<nat, FromErrorKind> {
    match content {
        ContentView::UTF8(text) => if writes_at_most(text, max) {
            Ok(decimal_value(text))
        } else {
            Err(FromErrorKind::ParseInt)
        },
        ContentView::Binary => Err(FromErrorKind::Binary),
        ContentView::Large => Err(FromErrorKind::Large),
    }
}

/// What turning content into its text gives.
pub open spec fn text_of(content: ContentView) -> Result<Seq<char>, FromErrorKind> {
    match content {
        ContentView::UTF8(text) => Ok(text),
        ContentView::Binary => Err(FromErrorKind::Binary),
        ContentView::Large => Err(FromErrorKind::Large),
    }
}

/// What turning content into a truth value gives.
pub open spec fn truth_of(content: ContentView) -> Result<bool, FromErrorKind> {
    match content {
        ContentView::UTF8(text) => if text == "true"@ {
            Ok(true)
        } else if text == "false"@ {
            Ok(false)
        } else {
            Err(FromErrorKind::ParseBool)
        },
        ContentView::Binary => Err(FromErrorKind::Binary),
        ContentView::Large => Err(FromErrorKind::Large),
    }
}

impl Content {
    /// The text of the content, where it is text.
    pub fn into_text(self) -> (text: Result<String, FromError>)
        ensures
            text matches Ok(t) ==> text_of(self@) == Ok::<Seq<char>, FromErrorKind>(t@),
            text matches Err(e) ==> text_of(self@) == Err::<Seq<char>, FromErrorKind>(e@),
    {
        match self {
            Content::UTF8(text) => Ok(text),
            Content::Binary => Err(FromError::Binary),
            Content::Large => Err(FromError::Large),
        }
    }
}

/// The classification of text: text of `MAX_SIZE` bytes or more in UTF-8
/// is too large.
pub open spec fn classify_text(text: Seq<char>) -> ContentView {
    if encode_utf8(text).len() >= MAX_SIZE {
        ContentView::Large
    } else {
        ContentView::UTF8(text)
    }
}

impl<'a> From<&'a [u8]> for Content {
    /// Classifies `bytes`.
    fn from(bytes: &'a [u8]) -> (content: Content)
        ensures
            content@ == classify(bytes@),
    {
        Content::from_bytes(bytes)
    }
}

impl<'a> FromSpecImpl<&'a [u8]> for Content {
    open spec fn obeys_from_spec() -> bool {
        false
    }

    open spec fn from_spec(bytes: &'a [u8]) -> Content {
        arbitrary()
    }
}

impl<'a> From<&'a str> for Content {
    /// Classifies `text`.
    fn from(text: &'a str) -> (content: Content)
        ensures
            content@ == classify_text(text@),
    {
        if text.as_bytes().len() >= MAX_SIZE {
            Content::Large
        } else {
            Content::UTF8(text.to_owned())
        }
    }
}

impl<'a> FromSpecImpl<&'a str> for Content {
    open spec fn obeys_from_spec() -> bool {
        false
    }

    open spec fn from_spec(text: &'a str) -> Content {
        arbitrary()
    }
}

impl TryFrom<Content> for String {
    type Error = FromError;

    /// The text of the content, where it is text.
    fn try_from(content: Content) -> (text: Result<String, FromError>)
        ensures
            text matches Ok(t) ==> text_of(content@) == Ok::<Seq<char>, FromErrorKind>(t@),
            text matches Err(e) ==> text_of(content@) == Err::<Seq<char>, FromErrorKind>(e@),
    {
        content.into_text()
    }
}

impl TryFromSpecImpl<Content> for String {
    open spec fn obeys_try_from_spec() -> bool {
        false
    }

    open spec fn try_from_spec(content: Content) -> Result<String, FromError> {
        arbitrary()
    }
}

impl TryFrom<Content> for usize {
    type Error = FromError;

    /// The number that the content writes, where it is decimal text.
    fn try_from(content: Content) -> (number: Result<usize, FromError>)
        ensures
            number matches Ok(n) ==> number_of(content@, usize::MAX as nat) == Ok::<
                nat,
                FromErrorKind,
            >(n as nat),
            number matches Err(e) ==> number_of(content@, usize::MAX as nat) == Err::<
                nat,
                FromErrorKind,
            >(e@),
    {
        match content {
            Content::UTF8(text) => match parse_usize(text.as_str()) {
                Ok(n) => Ok(n),
                Err(e) => Err(FromError::ParseInt(e)),
            },
            Content::Binary => Err(FromError::Binary),
            Content::Large => Err(FromError::Large),
        }
    }
}

impl TryFromSpecImpl<Content> for usize {
    open spec fn obeys_try_from_spec() -> bool {
        false
    }

    open spec fn try_from_spec(content: Content) -> Result<usize, FromError> {
        arbitrary()
    }
}

impl TryFrom<Content> for u64 {
    type Error = FromError;

    /// The number that the content writes, where it is decimal text.
    fn try_from(content: Content) -> (number: Result<u64, FromError>)
        ensures
            number matches Ok(n) ==> number_of(content@, u64::MAX as nat) == Ok::<
                nat,
                FromErrorKind,
            >(n as nat),
            number matches Err(e) ==> number_of(content@, u64::MAX as nat) == Err::<
                nat,
                FromErrorKind,
            >(e@),
    {
        match content.into_text() {
            Ok(text) => match parse_u64(text.as_str()) {
                Ok(n) => Ok(n),
                Err(e) => Err(FromError::ParseInt(e)),
            },
            Err(e) => Err(e),
        }
    }
}

impl TryFromSpecImpl<Content> for u64 {
    open spec fn obeys_try_from_spec() -> bool {
        false
    }

    open spec fn try_from_spec(content: Content) -> Result<u64, FromError> {
        arbitrary()
    }
}

impl TryFrom<Content> for u128 {
    type Error = FromError;

    /// The number that the content writes, where it is decimal text.
    fn try_from(content: Content) -> (number: Result<u128, FromError>)
        ensures
            number matches Ok(n) ==> number_of(content@, u128::MAX as nat) == Ok::<
                nat,
                FromErrorKind,
            >(n as nat),
            number matches Err(e) ==> number_of(content@, u128::MAX as nat) == Err::<
                nat,
                FromErrorKind,
            >(e@),
    {
        match content.into_text() {
            Ok(text) => match parse_u128(text.as_str()) {
                Ok(n) => Ok(n),
                Err(e) => Err(FromError::ParseInt(e)),
            },
            Err(e) => Err(e),
        }
    }
}

impl TryFromSpecImpl<Content> for u128 {
    open spec fn obeys_try_from_spec() -> bool {
        false
    }

    open spec fn try_from_spec(content: Content) -> Result<u128, FromError> {
        arbitrary()
    }
}

impl TryFrom<Content> for bool {
    type Error = FromError;

    /// The truth value that the content writes, where it is the text
    /// `true` or `false`.
    fn try_from(content: Content) -> (truth: Result<bool, FromError>)
        ensures
            truth matches Ok(b) ==> truth_of(content@) == Ok::<bool, FromErrorKind>(b),
            truth matches Err(e) ==> truth_of(content@) == Err::<bool, FromErrorKind>(e@),
    {
        proof {
            reveal_strlit("true");
            reveal_strlit("false");
            assert("true"@.len() != "false"@.len());
        }
        match content.into_text() {
            Ok(text) => match parse_bool(text.as_str()) {
                Ok(b) => Ok(b),
                Err(e) => Err(FromError::ParseBool(e)),
            },
            Err(e) => Err(e),
        }
    }
}

impl TryFromSpecImpl<Content> for bool {
    open spec fn obeys_try_from_spec() -> bool {
        false
    }

    open spec fn try_from_spec(content: Content) -> Result<bool, FromError> {
        arbitrary()
    }
}

} // verus!
