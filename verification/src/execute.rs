//! The hand-off of the chosen command line: how it splits into a program
//! and its arguments. Starting the program is the caller's part.

use crate::text::{mark_whitespace, substring, to_chars, white_marks};
use vstd::prelude::*;

verus! {

/// What is reported for a command line without a word.
pub const NO_COMMAND_MESSAGE: &'static str = "No command provided";

/// How many positions come before the first mark of `marks`: its length
/// where it holds no mark.
pub open spec fn word_len(marks: Seq<bool>) -> nat
    decreases marks.len(),
{
    if marks.len() == 0 || marks.first() {
        0
    } else {
        1 + word_len(marks.drop_first())
    }
}

/// The words of a text whose separators are marked: its runs of unmarked
/// characters, each as long as it can be, in order. `marks` has one entry for
/// each character of `s`.
pub open spec fn words_between(s: Seq<char>, marks: Seq<bool>) -> Seq<Seq<char>>
    decreases marks.len(),
    via words_between_decreases
{
    if marks.len() == 0 {
        Seq::empty()
    } else if marks.first() {
        words_between(s.drop_first(), marks.drop_first())
    } else {
        seq![s.take(word_len(marks) as int)] + words_between(
            s.skip(word_len(marks) as int),
            marks.skip(word_len(marks) as int),
        )
    }
}

#[via_fn]
proof fn words_between_decreases(s: Seq<char>, marks: Seq<bool>) {
    lemma_word_len(marks);
}

/// The words of a text: its runs of characters that are not white space,
/// each as long as it can be, in order.
pub open spec fn words(s: Seq<char>) -> Seq<Seq<char>> {
    words_between(s, white_marks(s))
}

/// A word ends within its text, and is not empty where the text starts
/// unmarked.
pub proof fn lemma_word_len(marks: Seq<bool>)
    ensures
        word_len(marks) <= marks.len(),
        marks.len() > 0 && !marks.first() ==> word_len(marks) > 0,
    decreases marks.len(),
{
    if marks.len() > 0 && !marks.first() {
        lemma_word_len(marks.drop_first());
    }
}

/// What to do with the command line that a session ended with.
#[derive(Debug, PartialEq, Eq)]
pub enum Launch {
    /// The session chose no command: there is nothing to do.
    Nothing,
    /// The chosen command line holds no word: `NO_COMMAND_MESSAGE` is
    /// reported and nothing is started.
    NoCommand,
    /// The program to start, and its arguments.
    Run { program: String, args: Vec<String> },
}

/// The end of the word that starts at position `from`: the position of the
/// first mark from there on, or the end of the text.
pub fn find_word_end(marks: &[bool], from: usize) -> (end: usize)
    requires
        from <= marks.len(),
    ensures
        from <= end <= marks.len(),
        end - from == word_len(marks@.skip(from as int)),
{
    let mut end: usize = from;
    while end < marks.len() && !marks[end]
        invariant
            from <= end <= marks.len(),
            word_len(marks@.skip(from as int)) == (end - from) + word_len(marks@.skip(end as int)),
        decreases marks.len() - end,
    {
        assert(marks@.skip(end as int).drop_first() =~= marks@.skip(end + 1));
        end += 1;
    }
    end
}

/// The words of `chars`, split at the marked characters; marks at either
/// end and runs of them between words leave no empty word.
pub fn split_at_marks(chars: &[char], marks: &[bool]) -> (parts: Vec<String>)
    requires
        chars.len() == marks.len(),
    ensures
        parts.deep_view() == words_between(chars@, marks@),
{
    let mut parts: Vec<String> = Vec::new();
    let mut at: usize = 0;
    assert(chars@.skip(0) =~= chars@);
    assert(marks@.skip(0) =~= marks@);
    while at < chars.len()
        invariant
            at <= chars.len(),
            chars.len() == marks.len(),
            words_between(chars@, marks@) == parts.deep_view() + words_between(
                chars@.skip(at as int),
                marks@.skip(at as int),
            ),
        decreases chars.len() - at,
    {
        let ghost rest = chars@.skip(at as int);
        let ghost rest_marks = marks@.skip(at as int);
        if marks[at] {
            assert(rest.drop_first() =~= chars@.skip(at + 1));
            assert(rest_marks.drop_first() =~= marks@.skip(at + 1));
            at += 1;
        } else {
            let end = find_word_end(marks, at);
            let word = substring(chars, at, end);
            assert(rest.take(end - at) =~= word@);
            assert(rest.skip(end - at) =~= chars@.skip(end as int));
            assert(rest_marks.skip(end - at) =~= marks@.skip(end as int));
            parts.push(word);
            at = end;
        }
    }
    parts
}

/// The words of `text`, split at white space; white space at either end and
/// runs of it between words leave no empty word.
pub fn split_words(text: &str) -> (parts: Vec<String>)
    ensures
        parts.deep_view() == words(text@),
{
    let chars = to_chars(text);
    let marks = mark_whitespace(chars.as_slice());
    split_at_marks(chars.as_slice(), marks.as_slice())
}

/// What to do with the words of a command line: a report where there is
/// none; else the first word is the program and the words after it are its
/// arguments.
pub fn launch_of_words(parts: Vec<String>) -> (plan: Launch)
    ensures
        match plan {
            Launch::Nothing => false,
            Launch::NoCommand => parts.len() == 0,
            Launch::Run { program, args } => {
                &&& parts.len() > 0
                &&& program@ == parts.deep_view().first()
                &&& args.deep_view() == parts.deep_view().drop_first()
            },
        },
{
    let mut parts = parts;
    if parts.len() == 0 {
        Launch::NoCommand
    } else {
        let program = parts.remove(0);
        Launch::Run { program, args: parts }
    }
}

/// What to do with the command line that a session ended with: nothing
/// without one; a report where it holds no word; else its first word is the
/// program and the words after it are the arguments.
pub fn plan_launch(command: Option<&str>) -> (plan: Launch)
    ensures
        match plan {
            Launch::Nothing => command is None,
            Launch::NoCommand => command is Some && words(command.unwrap()@).len() == 0,
            Launch::Run { program, args } => {
                &&& command is Some
                &&& words(command.unwrap()@).len() > 0
                &&& program@ == words(command.unwrap()@).first()
                &&& args.deep_view() == words(command.unwrap()@).drop_first()
            },
        },
{
    match command {
        None => Launch::Nothing,
        Some(text) => launch_of_words(split_words(text)),
    }
}

} // verus!
