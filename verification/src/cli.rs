//! The one-shot flow that describes a command line given as arguments and
//! saves it: what the command line is, what an answer means, and which entry
//! is stored. Prompting and writing are the caller's part.

use crate::app::BashCmd;
use crate::model::{EntryView, DEFAULT_CATEGORY};
use crate::text::{lowercase_of, trim_text, trimmed};
use vstd::prelude::*;
use vstd::string::StringExecFns;

verus! {

/// The position number of an entry that this flow stores.
pub const DESCRIBED_INDEX: usize = 100;

/// The character between the arguments of a command line.
pub const SEPARATOR: char = ' ';

/// The answer that confirms saving, in lowercase.
pub const YES: &'static str = "y";

/// The texts `parts` in one text, a separator between each two.
pub open spec fn joined(parts: Seq<Seq<char>>) -> Seq<char>
    decreases parts.len(),
{
    if parts.len() == 0 {
        Seq::empty()
    } else if parts.len() == 1 {
        parts.last()
    } else {
        joined(parts.drop_last()) + seq![SEPARATOR] + parts.last()
    }
}

/// The entry that this flow stores for a command line.
pub open spec fn described(name: Seq<char>, desc: Seq<char>, command: Seq<char>) -> EntryView {
    EntryView {
        name,
        desc,
        command,
        index: DESCRIBED_INDEX,
        category: DEFAULT_CATEGORY,
        favourite: false,
    }
}

/// Whether an answer confirms: whether its lowercase form is `YES`.
pub open spec fn confirms(answer: Seq<char>) -> bool {
    lowercase_of(answer) == YES@
}

/// The command line that the arguments of the program spell: all of them
/// but the first, which is the program's own name, with one space between
/// each two.
pub fn command_from_args(args: &Vec<String>) -> (command: String)
    requires
        args.len() >= 1,
    ensures
        command@ == joined(args.deep_view().drop_first()),
{
    let ghost words = args.deep_view().drop_first();
    let mut command = String::new();
    let mut i: usize = 1;
    while i < args.len()
        invariant
            1 <= i <= args.len(),
            words == args.deep_view().drop_first(),
            command@ == joined(words.take(i - 1)),
        decreases args.len() - i,
    {
        if i > 1 {
            command.push(SEPARATOR);
        }
        command.append(args[i].as_str());
        assert(words.take(i as int).drop_last() =~= words.take(i - 1));
        i += 1;
    }
    assert(words.take(i - 1) =~= words);
    command
}

/// What was typed at a prompt, without the white space at either end.
pub fn clean_answer(raw: &str) -> (answer: String)
    ensures
        answer@ == trimmed(raw@),
{
    trim_text(raw)
}

/// Tells whether an answer confirms saving: "y", in either case.
pub fn is_yes(answer: &str) -> (yes: bool)
    ensures
        yes == confirms(answer@),
{
    let lower = answer.to_lowercase();
    lower == YES.to_owned()
}

/// The entry that this flow stores for a command line: the three texts, the
/// position number `DESCRIBED_INDEX`, the default category, not a favourite.
pub fn describe(name: String, desc: String, command: String) -> (entry: BashCmd)
    ensures
        entry@ == described(name@, desc@, command@),
{
    BashCmd {
        name,
        desc,
        command,
        index: DESCRIBED_INDEX,
        category: DEFAULT_CATEGORY,
        favourite: false,
    }
}

/// The entry to append to storage, if the answer confirms; `None` if it
/// does not.
pub fn entry_to_save(name: String, desc: String, command: String, answer: &str) -> (entry: Option<
    BashCmd,
>)
    ensures
        match entry {
            Some(e) => confirms(answer@) && e@ == described(name@, desc@, command@),
            None => !confirms(answer@),
        },
{
    if is_yes(answer) {
        Some(describe(name, desc, command))
    } else {
        None
    }
}

} // verus!
