//! Text as sequences of characters: case folding, searching, trimming and
//! building strings.
//!
//! Every contract here speaks of a string through its view, a `Seq<char>`.
//! What is white space and what the lowercase form of a text is, the standard
//! library decides; all that is made of those answers is decided here.

use vstd::prelude::*;

verus! {

/// The lowercase form of a text, as `str::to_lowercase` computes it.
pub uninterp spec fn lowercase_of(s: Seq<char>) -> Seq<char>;

/// Whether a character is white space, as `char::is_whitespace` decides it.
pub uninterp spec fn is_whitespace_char(c: char) -> bool;

/// `str::to_lowercase` returns the lowercase form of its argument, and an
/// empty text for an empty one.
pub assume_specification[ str::to_lowercase ](s: &str) -> (lower: String)
    ensures
        lower@ == lowercase_of(s@),
        s@.len() == 0 ==> lower@.len() == 0,
;

/// `char::is_whitespace` depends on the character alone.
pub assume_specification[ char::is_whitespace ](c: char) -> (white: bool)
    ensures
        white == is_whitespace_char(c),
;

/// `String::push` appends one character at the end.
pub assume_specification[ String::push ](s: &mut String, ch: char)
    ensures
        final(s)@ == old(s)@.push(ch),
;

/// `String::pop` removes the last character and returns it, or returns `None`
/// and leaves an empty string as it is.
pub assume_specification[ String::pop ](s: &mut String) -> (last: Option<char>)
    ensures
        old(s)@.len() == 0 ==> last is None && final(s)@ == old(s)@,
        old(s)@.len() > 0 ==> last == Some(old(s)@.last()) && final(s)@ == old(s)@.drop_last(),
;

/// `needle` stands in `hay` at position `at`.
pub open spec fn occurs_at(hay: Seq<char>, needle: Seq<char>, at: int) -> bool {
    0 <= at && at + needle.len() <= hay.len() && hay.subrange(at, at + needle.len()) == needle
}

/// `needle` occurs somewhere in `hay` as a run of consecutive characters.
pub open spec fn contains_seq(hay: Seq<char>, needle: Seq<char>) -> bool {
    exists|at: int| occurs_at(hay, needle, at)
}

/// A text without its last character; an empty text stays empty.
pub open spec fn without_last(s: Seq<char>) -> Seq<char> {
    if s.len() > 0 {
        s.drop_last()
    } else {
        s
    }
}

/// For each character of a text, whether it is white space.
pub open spec fn white_marks(s: Seq<char>) -> Seq<bool> {
    Seq::new(s.len(), |i: int| is_whitespace_char(s[i]))
}

/// How many marks stand at the start of `marks`, one after the other.
pub open spec fn leading(marks: Seq<bool>) -> nat
    decreases marks.len(),
{
    if marks.len() > 0 && marks.first() {
        1 + leading(marks.drop_first())
    } else {
        0
    }
}

/// How many marks stand at the end of `marks`, one after the other.
pub open spec fn trailing(marks: Seq<bool>) -> nat
    decreases marks.len(),
{
    if marks.len() > 0 && marks.last() {
        1 + trailing(marks.drop_last())
    } else {
        0
    }
}

/// Where the marked positions at the start of `marks` end, and where those
/// at the end of what follows begin.
pub open spec fn trim_range(marks: Seq<bool>) -> (int, int) {
    let from = leading(marks) as int;
    (from, marks.len() - trailing(marks.skip(from)))
}

/// A text without the white space at either end.
pub open spec fn trimmed(s: Seq<char>) -> Seq<char> {
    s.subrange(trim_range(white_marks(s)).0, trim_range(white_marks(s)).1)
}

/// The empty text occurs in every text.
pub proof fn lemma_contains_empty(hay: Seq<char>)
    ensures
        contains_seq(hay, Seq::<char>::empty()),
{
    assert(hay.subrange(0, 0) =~= Seq::<char>::empty());
    assert(occurs_at(hay, Seq::<char>::empty(), 0));
}

/// The characters of `s`, in order.
pub fn to_chars(s: &str) -> (chars: Vec<char>)
    ensures
        chars@ == s@,
{
    let mut chars: Vec<char> = Vec::new();
    for c in it: s.chars()
        invariant
            chars@ == it.seq().take(it.index() as int),
            it.seq() == s@,
    {
        chars.push(c);
    }
    chars
}

/// The string made of the characters `chars[from..to]`.
pub fn substring(chars: &[char], from: usize, to: usize) -> (s: String)
    requires
        from <= to <= chars.len(),
    ensures
        s@ == chars@.subrange(from as int, to as int),
{
    let mut s = String::new();
    let mut i: usize = from;
    while i < to
        invariant
            from <= i <= to <= chars.len(),
            s@ == chars@.subrange(from as int, i as int),
        decreases to - i,
    {
        s.push(chars[i]);
        i += 1;
    }
    s
}

/// Tells whether `needle` stands in `hay` at position `at`.
pub fn matches_at(hay: &[char], needle: &[char], at: usize) -> (found: bool)
    requires
        at + needle.len() <= hay.len(),
    ensures
        found == occurs_at(hay@, needle@, at as int),
{
    let mut k: usize = 0;
    while k < needle.len()
        invariant
            k <= needle.len(),
            at + needle.len() <= hay.len(),
            forall|j: int| 0 <= j < k ==> hay@[at + j] == needle@[j],
        decreases needle.len() - k,
    {
        if hay[at + k] != needle[k] {
            return false;
        }
        k += 1;
    }
    assert(hay@.subrange(at as int, at + needle.len()) =~= needle@);
    true
}

/// Tells whether `needle` occurs in `hay`.
pub fn contains_chars(hay: &[char], needle: &[char]) -> (found: bool)
    ensures
        found == contains_seq(hay@, needle@),
{
    if needle.len() > hay.len() {
        return false;
    }
    let last: usize = hay.len() - needle.len();
    let mut at: usize = 0;
    loop
        invariant
            at <= last,
            last == hay.len() - needle.len(),
            forall|j: int| 0 <= j < at ==> !occurs_at(hay@, needle@, j),
        decreases last - at,
    {
        if matches_at(hay, needle, at) {
            return true;
        }
        if at == last {
            return false;
        }
        at += 1;
    }
}

/// Tells whether the text `needle` occurs in the text `hay`.
pub fn contains_text(hay: &str, needle: &str) -> (found: bool)
    ensures
        found == contains_seq(hay@, needle@),
{
    let hay_chars = to_chars(hay);
    let needle_chars = to_chars(needle);
    contains_chars(hay_chars.as_slice(), needle_chars.as_slice())
}

/// Marks the white space of `chars`.
pub fn mark_whitespace(chars: &[char]) -> (marks: Vec<bool>)
    ensures
        marks@ == white_marks(chars@),
{
    let mut marks: Vec<bool> = Vec::new();
    let mut i: usize = 0;
    while i < chars.len()
        invariant
            i <= chars.len(),
            marks@ == white_marks(chars@.take(i as int)),
        decreases chars.len() - i,
    {
        marks.push(chars[i].is_whitespace());
        i += 1;
    }
    marks
}

/// The bounds of what stays of a text when the marked positions at either
/// end are dropped.
pub fn trim_bounds(marks: &[bool]) -> (bounds: (usize, usize))
    ensures
        bounds.0 <= bounds.1 <= marks.len(),
        (bounds.0 as int, bounds.1 as int) == trim_range(marks@),
{
    let mut from: usize = 0;
    assert(marks@.skip(0) =~= marks@);
    while from < marks.len() && marks[from]
        invariant
            from <= marks.len(),
            leading(marks@) == from + leading(marks@.skip(from as int)),
        decreases marks.len() - from,
    {
        assert(marks@.skip(from as int).drop_first() =~= marks@.skip(from + 1));
        from += 1;
    }
    let ghost rest = marks@.skip(from as int);
    let mut to: usize = marks.len();
    while to > from && marks[to - 1]
        invariant
            from <= to <= marks.len(),
            rest == marks@.skip(from as int),
            trailing(rest) == (marks.len() - to) + trailing(marks@.subrange(from as int, to as int)),
        decreases to - from,
    {
        assert(marks@.subrange(from as int, to as int).drop_last() =~= marks@.subrange(
            from as int,
            to - 1,
        ));
        to -= 1;
    }
    (from, to)
}

/// `s` without the white space at either end.
pub fn trim_text(s: &str) -> (clean: String)
    ensures
        clean@ == trimmed(s@),
{
    let chars = to_chars(s);
    let marks = mark_whitespace(chars.as_slice());
    let (from, to) = trim_bounds(marks.as_slice());
    substring(chars.as_slice(), from, to)
}

} // verus!
