//! Relative paths inside a view: sequences of names, written with `/` between them.

use vstd::prelude::*;

verus! {

broadcast use Seq::lemma_filter_push;

/// The pieces of `s` between its `/` characters, empty pieces included.
/// There is always at least one piece.
pub open spec fn segments(s: Seq<char>) -> Seq<Seq<char>>
    decreases s.len(),
{
    if s.len() == 0 {
        seq![Seq::<char>::empty()]
    } else {
        let before = segments(s.drop_last());
        if s.last() == '/' {
            before.push(Seq::<char>::empty())
        } else {
            before.drop_last().push(before.last().push(s.last()))
        }
    }
}

/// A piece that counts as a name: it is not empty and is not the single dot
/// that stands for the directory itself.
pub open spec fn is_component(segment: Seq<char>) -> bool {
    segment.len() > 0 && !(segment.len() == 1 && segment[0] == '.')
}

/// The names that the text `s` spells out, in order.
pub open spec fn components(s: Seq<char>) -> Seq<Seq<char>> {
    segments(s).filter(|segment: Seq<char>| is_component(segment))
}

/// The names `parts` written as text, with one `/` between neighbours.
pub open spec fn joined(parts: Seq<Seq<char>>) -> Seq<char>
    decreases parts.len(),
{
    if parts.len() == 0 {
        Seq::<char>::empty()
    } else if parts.len() == 1 {
        parts[0]
    } else {
        joined(parts.drop_last()) + seq!['/'] + parts.last()
    }
}

/// Every name is a component and holds no `/`.
pub open spec fn well_formed(parts: Seq<Seq<char>>) -> bool {
    forall|i: int|
        0 <= i < parts.len() ==> is_component(#[trigger] parts[i]) && !parts[i].contains('/')
}

proof fn lemma_segments_nonempty(s: Seq<char>)
    ensures
        segments(s).len() >= 1,
    decreases s.len(),
{
    if s.len() > 0 {
        lemma_segments_nonempty(s.drop_last());
    }
}

proof fn lemma_segments_hold_no_slash(s: Seq<char>)
    ensures
        forall|i: int| 0 <= i < segments(s).len() ==> !(#[trigger] segments(s)[i]).contains('/'),
    decreases s.len(),
{
    if s.len() > 0 {
        lemma_segments_hold_no_slash(s.drop_last());
        lemma_segments_nonempty(s.drop_last());
        let before = segments(s.drop_last());
        if s.last() != '/' {
            let grown = before.last().push(s.last());
            assert forall|k: int| 0 <= k < grown.len() implies grown[k] != '/' by {
                if k < before.last().len() {
                    assert(before.last().contains(before.last()[k]));
                }
            }
        }
    }
}

/// Text without `/` that follows `a` lengthens the last piece of `a`.
proof fn lemma_segments_append_name(a: Seq<char>, b: Seq<char>)
    requires
        !b.contains('/'),
    ensures
        segments(a + b) == segments(a).drop_last().push(segments(a).last() + b),
    decreases b.len(),
{
    lemma_segments_nonempty(a);
    if b.len() == 0 {
        assert(a + b =~= a);
        assert(segments(a).last() + b =~= segments(a).last());
        assert(segments(a).drop_last().push(segments(a).last()) =~= segments(a));
    } else {
        let shorter = b.drop_last();
        assert forall|k: int| 0 <= k < shorter.len() implies shorter[k] != '/' by {
            assert(b.contains(b[k]));
        }
        lemma_segments_append_name(a, shorter);
        assert((a + b).drop_last() =~= a + shorter);
        assert((a + b).last() == b.last());
        assert(b.contains(b.last()));
        let before = segments(a + shorter);
        assert(before.last() == segments(a).last() + shorter);
        assert(before.last().push(b.last()) =~= segments(a).last() + b);
        assert(before.drop_last() =~= segments(a).drop_last());
    }
}

/// Writing well-formed names as text and reading the text back gives the names.
pub proof fn lemma_components_of_joined(parts: Seq<Seq<char>>)
    requires
        well_formed(parts),
    ensures
        components(joined(parts)) == parts,
    decreases parts.len(),
{
    let keep = |segment: Seq<char>| is_component(segment);
    let nothing = Seq::<char>::empty();
    if parts.len() == 0 {
        assert(segments(joined(parts)) =~= Seq::<Seq<char>>::empty().push(nothing));
        assert(Seq::<Seq<char>>::empty().filter(keep) =~= Seq::<Seq<char>>::empty());
        assert(components(joined(parts)) =~= parts);
    } else if parts.len() == 1 {
        lemma_segments_append_name(nothing, parts[0]);
        assert(nothing + parts[0] =~= parts[0]);
        assert(segments(nothing) =~= seq![nothing]);
        assert(segments(nothing).drop_last() =~= Seq::<Seq<char>>::empty());
        assert(Seq::<Seq<char>>::empty().filter(keep) =~= Seq::<Seq<char>>::empty());
        assert(components(joined(parts)) =~= parts);
    } else {
        let front = parts.drop_last();
        lemma_components_of_joined(front);
        let text = joined(front) + seq!['/'];
        assert(text.drop_last() =~= joined(front));
        assert(text.last() == '/');
        assert(segments(text) == segments(joined(front)).push(nothing));
        lemma_segments_append_name(text, parts.last());
        assert(segments(text).drop_last() =~= segments(joined(front)));
        assert(nothing + parts.last() =~= parts.last());
        assert(segments(joined(parts)) == segments(joined(front)).push(parts.last()));
        assert(front.push(parts.last()) =~= parts);
    }
}

/// The pieces of a text with a `/` in it are the pieces before that `/`
/// followed by the pieces after it.
proof fn lemma_segments_around_slash(a: Seq<char>, b: Seq<char>)
    ensures
        segments(a + seq!['/'] + b) == segments(a) + segments(b),
    decreases b.len(),
{
    let whole = a + seq!['/'] + b;
    lemma_segments_nonempty(a);
    if b.len() == 0 {
        assert(whole.drop_last() =~= a);
        assert(segments(b) =~= seq![Seq::<char>::empty()]);
        assert(segments(a).push(Seq::<char>::empty()) =~= segments(a) + segments(b));
    } else {
        let shorter = b.drop_last();
        lemma_segments_around_slash(a, shorter);
        lemma_segments_nonempty(shorter);
        assert(whole.drop_last() =~= a + seq!['/'] + shorter);
        assert(whole.last() == b.last());
        let before = segments(a) + segments(shorter);
        if b.last() == '/' {
            assert(before.push(Seq::<char>::empty()) =~= segments(a) + segments(b));
        } else {
            assert(before.last() == segments(shorter).last());
            assert(before.drop_last() =~= segments(a) + segments(shorter).drop_last());
            assert(before.drop_last().push(before.last().push(b.last())) =~= segments(a)
                + segments(b));
        }
    }
}

/// The names of one text, a `/` and another text are the names of the first
/// followed by the names of the second.
pub proof fn lemma_components_around_slash(a: Seq<char>, b: Seq<char>)
    ensures
        components(a + seq!['/'] + b) == components(a) + components(b),
{
    lemma_segments_around_slash(a, b);
    Seq::filter_distributes_over_add(
        segments(a),
        segments(b),
        |segment: Seq<char>| is_component(segment),
    );
}

/// A relative path: the names on the way from a directory down to an entry.
/// The path without names stands for the directory itself.
#[derive(Debug, PartialEq, Eq)]
pub struct RelPath {
    parts: Vec<String>,
}

impl View for RelPath {
    type V = Seq<Seq<char>>;

    closed spec fn view(&self) -> Seq<Seq<char>> {
        self.parts.deep_view()
    }
}

impl DeepView for RelPath {
    type V = Seq<Seq<char>>;

    open spec fn deep_view(&self) -> Seq<Seq<char>> {
        self@
    }
}

impl Clone for RelPath {
    fn clone(&self) -> (copy: RelPath)
        ensures
            copy@ == self@,
    {
        proof {
            use_type_invariant(self);
        }
        let parts: Vec<String> = self.parts.clone();
        assert(parts.deep_view() == self.parts.deep_view()) by {
            broadcast use vstd::std_specs::vec::vec_clone_deep_view_proof;
        }
        RelPath { parts }
    }
}

/// Whether the text `piece` is a name.
fn names_entry(piece: &str) -> (named: bool)
    ensures
        named == is_component(piece@),
{
    let length = piece.unicode_len();
    if length == 0 {
        false
    } else if length == 1 {
        piece.get_char(0) != '.'
    } else {
        true
    }
}

impl RelPath {
    #[verifier::type_invariant]
    spec fn inv(self) -> bool {
        well_formed(self.parts.deep_view())
    }

    /// The path without names.
    pub fn empty() -> (path: RelPath)
        ensures
            path@ == Seq::<Seq<char>>::empty(),
    {
        let parts: Vec<String> = Vec::new();
        assert(parts.deep_view() =~= Seq::<Seq<char>>::empty());
        RelPath { parts }
    }

    /// Reads a path from text. Names stand between `/` characters; empty
    /// pieces and single dots are passed over, so `a//b/`, `./a/b` and `a/b`
    /// are the same path.
    pub fn parse(text: &str) -> (path: RelPath)
        ensures
            path@ == components(text@),
            well_formed(path@),
    {
        let total = text.unicode_len();
        let mut parts: Vec<String> = Vec::new();
        let mut start: usize = 0;
        let mut seen: usize = 0;
        let ghost keep = |segment: Seq<char>| is_component(segment);
        proof {
            assert(text@.take(0) =~= Seq::<char>::empty());
            assert(segments(text@.take(0)) =~= seq![Seq::<char>::empty()]);
            assert(segments(text@.take(0)).drop_last() =~= Seq::<Seq<char>>::empty());
            assert(Seq::<Seq<char>>::empty().filter(keep) =~= Seq::<Seq<char>>::empty());
            assert(parts.deep_view() =~= Seq::<Seq<char>>::empty());
        }
        for c in it: text.chars()
            invariant
                it.seq() == text@,
                total == text@.len(),
                seen == it.index(),
                start <= seen <= total,
                keep == (|segment: Seq<char>| is_component(segment)),
                segments(text@.take(seen as int)).len() >= 1,
                segments(text@.take(seen as int)).last() == text@.subrange(
                    start as int,
                    seen as int,
                ),
                parts.deep_view() == segments(text@.take(seen as int)).drop_last().filter(keep),
                well_formed(parts.deep_view()),
        {
            let ghost before = segments(text@.take(seen as int));
            let ghost old_parts = parts.deep_view();
            proof {
                assert(text@.take(seen + 1).drop_last() =~= text@.take(seen as int));
                assert(text@.take(seen + 1).last() == c);
                lemma_segments_hold_no_slash(text@.take(seen as int));
            }
            if c == '/' {
                let piece = text.substring_char(start, seen);
                if names_entry(piece) {
                    parts.push(piece.to_owned());
                    assert(parts.deep_view() =~= old_parts.push(piece@));
                }
                proof {
                    assert(before.drop_last().push(before.last()) =~= before);
                    assert(segments(text@.take(seen + 1)).drop_last() =~= before);
                    assert(text@.subrange(seen + 1, seen + 1) =~= Seq::<char>::empty());
                }
                start = seen + 1;
            } else {
                proof {
                    assert(segments(text@.take(seen + 1)).drop_last() =~= before.drop_last());
                    assert(text@.subrange(start as int, seen as int).push(c) =~= text@.subrange(
                        start as int,
                        seen + 1,
                    ));
                }
            }
            seen = seen + 1;
        }
        let ghost all = segments(text@);
        let ghost old_parts = parts.deep_view();
        proof {
            assert(text@.take(seen as int) =~= text@);
            assert(all.drop_last().push(all.last()) =~= all);
            lemma_segments_hold_no_slash(text@);
        }
        let piece = text.substring_char(start, seen);
        if names_entry(piece) {
            parts.push(piece.to_owned());
            assert(parts.deep_view() =~= old_parts.push(piece@));
        }
        RelPath { parts }
    }

    /// The number of names.
    pub fn len(&self) -> (n: usize)
        ensures
            n == self@.len(),
    {
        self.parts.len()
    }

    /// Whether the path has no names.
    pub fn is_empty(&self) -> (none: bool)
        ensures
            none == (self@.len() == 0),
    {
        self.parts.len() == 0
    }

    /// `self` followed by `tail`.
    pub fn join(&self, tail: &RelPath) -> (path: RelPath)
        ensures
            path@ == self@ + tail@,
    {
        proof {
            use_type_invariant(self);
            use_type_invariant(tail);
        }
        let mut parts: Vec<String> = self.parts.clone();
        assert(parts.deep_view() == self.parts.deep_view()) by {
            broadcast use vstd::std_specs::vec::vec_clone_deep_view_proof;
        }
        let mut i: usize = 0;
        while i < tail.parts.len()
            invariant
                i <= tail.parts.len(),
                parts.deep_view() == self.parts.deep_view() + tail.parts.deep_view().take(i as int),
                well_formed(self.parts.deep_view()),
                well_formed(tail.parts.deep_view()),
            decreases tail.parts.len() - i,
        {
            let ghost old_parts = parts.deep_view();
            parts.push(tail.parts[i].clone());
            proof {
                assert(parts.deep_view() =~= old_parts.push(tail.parts[i as int]@));
                assert(tail.parts.deep_view().take(i + 1) =~= tail.parts.deep_view().take(
                    i as int,
                ).push(tail.parts[i as int]@));
                assert(parts.deep_view() =~= self.parts.deep_view() + tail.parts.deep_view().take(
                    i + 1,
                ));
            }
            i = i + 1;
        }
        proof {
            assert(tail.parts.deep_view().take(i as int) =~= tail.parts.deep_view());
            let whole = self.parts.deep_view() + tail.parts.deep_view();
            assert forall|k: int| 0 <= k < whole.len() implies is_component(#[trigger] whole[k])
                && !whole[k].contains('/') by {
                if k < self.parts.deep_view().len() {
                    assert(whole[k] == self.parts.deep_view()[k]);
                } else {
                    assert(whole[k] == tail.parts.deep_view()[k - self.parts.deep_view().len()]);
                }
            }
        }
        RelPath { parts }
    }

    /// Whether the names of `base` are the first names of `self`, whole name
    /// by whole name.
    pub fn starts_with(&self, base: &RelPath) -> (prefixed: bool)
        ensures
            prefixed == base@.is_prefix_of(self@),
    {
        if base.parts.len() > self.parts.len() {
            return false;
        }
        let mut i: usize = 0;
        while i < base.parts.len()
            invariant
                i <= base.parts.len() <= self.parts.len(),
                forall|k: int| 0 <= k < i ==> self.parts.deep_view()[k] == base.parts.deep_view()[k],
            decreases base.parts.len() - i,
        {
            if !(self.parts[i] == base.parts[i]) {
                proof {
                    assert(self.parts.deep_view()[i as int] != base.parts.deep_view()[i as int]);
                    assert(self@.subrange(0, base@.len() as int)[i as int] == self@[i as int]);
                }
                return false;
            }
            i = i + 1;
        }
        assert(base@ =~= self@.subrange(0, base@.len() as int));
        true
    }

    /// The names of `self` after those of `base`, where `self` starts with
    /// `base`.
    pub fn strip_prefix(&self, base: &RelPath) -> (rest: Option<RelPath>)
        ensures
            rest is Some <==> base@.is_prefix_of(self@),
            rest matches Some(path) ==> path@ == self@.skip(base@.len() as int),
    {
        if !self.starts_with(base) {
            return None;
        }
        proof {
            use_type_invariant(self);
        }
        let mut parts: Vec<String> = Vec::new();
        let mut i: usize = base.parts.len();
        assert(parts.deep_view() =~= self.parts.deep_view().subrange(i as int, i as int));
        while i < self.parts.len()
            invariant
                base.parts.len() <= i <= self.parts.len(),
                parts.deep_view() == self.parts.deep_view().subrange(
                    base.parts.len() as int,
                    i as int,
                ),
                well_formed(self.parts.deep_view()),
            decreases self.parts.len() - i,
        {
            let ghost old_parts = parts.deep_view();
            parts.push(self.parts[i].clone());
            proof {
                assert(parts.deep_view() =~= old_parts.push(self.parts[i as int]@));
                assert(parts.deep_view() =~= self.parts.deep_view().subrange(
                    base.parts.len() as int,
                    i + 1,
                ));
            }
            i = i + 1;
        }
        assert(parts.deep_view() =~= self@.skip(base@.len() as int));
        Some(RelPath { parts })
    }

    /// Whether the first name of the path is `name`.
    pub fn first_is(&self, name: &str) -> (is: bool)
        ensures
            is == (self@.len() > 0 && self@[0] == name@),
    {
        if self.parts.len() == 0 {
            false
        } else {
            let wanted: String = name.to_owned();
            self.parts[0] == wanted
        }
    }

    /// The path as text: its names with one `/` between neighbours. Reading
    /// the text back gives the path.
    pub fn to_string(&self) -> (text: String)
        ensures
            text@ == joined(self@),
            components(text@) == self@,
    {
        proof {
            use_type_invariant(self);
            lemma_components_of_joined(self@);
        }
        let mut text = String::new();
        let mut i: usize = 0;
        assert(self@.take(0) =~= Seq::<Seq<char>>::empty());
        while i < self.parts.len()
            invariant
                i <= self.parts.len(),
                text@ == joined(self@.take(i as int)),
            decreases self.parts.len() - i,
        {
            proof {
                let upto = self@.take(i + 1);
                assert(upto.drop_last() =~= self@.take(i as int));
                assert(upto.last() == self.parts[i as int]@);
                if i == 0 {
                    assert(Seq::<char>::empty() + self.parts[0]@ =~= self.parts[0]@);
                }
            }
            if i > 0 {
                text.append("/");
                proof {
                    reveal_strlit("/");
                    assert("/"@ =~= seq!['/']);
                }
            }
            text.append(self.parts[i].as_str());
            i = i + 1;
        }
        assert(self@.take(i as int) =~= self@);
        text
    }
}

} // verus!
