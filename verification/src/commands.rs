//! The stored form of the catalog: one line of text per command, its name,
//! description and command line joined by a delimiter character.
//!
//! Reading and writing the file is the caller's part; the text that goes
//! into it and what a text read from it means are decided here.

use crate::app::BashCmd;
use crate::model::{EntryView, DEFAULT_CATEGORY};
use crate::text::{substring, to_chars};
use vstd::prelude::*;
use vstd::string::StringExecFns;

verus! {

/// The character between the fields of a line.
pub const DELIMITER: char = '\u{203B}';

/// The character that ends a line.
pub const LINE_END: char = '\n';

/// The directory under the user's home directory that holds configuration.
pub const CONFIG_DIR: &'static str = ".config";

/// The directory under `CONFIG_DIR` that holds the catalog file.
pub const APP_DIR: &'static str = "bash_command_app";

/// The name of the catalog file.
pub const COMMANDS_FILE: &'static str = "commands.txt";

/// The three texts of a stored command.
pub struct Fields {
    pub name: Seq<char>,
    pub desc: Seq<char>,
    pub command: Seq<char>,
}

/// The three texts of an entry.
pub open spec fn fields_of(e: EntryView) -> Fields {
    Fields { name: e.name, desc: e.desc, command: e.command }
}

/// How many characters of `s` come before the first `stop`: the length of
/// `s` where it holds no `stop`.
pub open spec fn prefix_len(s: Seq<char>, stop: char) -> nat
    decreases s.len(),
{
    if s.len() == 0 || s.first() == stop {
        0
    } else {
        1 + prefix_len(s.drop_first(), stop)
    }
}

/// How often `c` occurs in `s`.
pub open spec fn occurrences(s: Seq<char>, c: char) -> nat
    decreases s.len(),
{
    if s.len() == 0 {
        0
    } else if s.first() == c {
        1 + occurrences(s.drop_first(), c)
    } else {
        occurrences(s.drop_first(), c)
    }
}

/// The line that stores an entry: name, delimiter, description, delimiter,
/// command line.
pub open spec fn format_line(e: EntryView) -> Seq<char> {
    e.name + seq![DELIMITER] + e.desc + seq![DELIMITER] + e.command
}

/// The text that stores a catalog: the line of each entry, in order, each
/// followed by a line end.
pub open spec fn serialized(entries: Seq<EntryView>) -> Seq<char>
    decreases entries.len(),
{
    if entries.len() == 0 {
        Seq::empty()
    } else {
        serialized(entries.drop_last()) + format_line(entries.last()) + seq![LINE_END]
    }
}

/// What a line means: the text before its first delimiter is the name, the
/// text between its first and second delimiter the description, all after
/// the second delimiter the command line. A line with fewer than two
/// delimiters means nothing.
pub open spec fn parse_line(line: Seq<char>) -> Option<Fields> {
    let first = prefix_len(line, DELIMITER) as int;
    if first >= line.len() {
        None
    } else {
        let rest = line.skip(first + 1);
        let second = prefix_len(rest, DELIMITER) as int;
        if second >= rest.len() {
            None
        } else {
            Some(
                Fields {
                    name: line.take(first),
                    desc: rest.take(second),
                    command: rest.skip(second + 1),
                },
            )
        }
    }
}

/// The commands that one line holds: one, or none.
pub open spec fn line_records(line: Seq<char>) -> Seq<Fields> {
    match parse_line(line) {
        Some(fields) => seq![fields],
        None => Seq::empty(),
    }
}

/// The commands that a text holds: those of its first line, then those of
/// the text after the first line end.
pub open spec fn records(text: Seq<char>) -> Seq<Fields>
    decreases text.len(),
{
    let end = prefix_len(text, LINE_END) as int;
    if end >= text.len() {
        line_records(text)
    } else {
        line_records(text.take(end)) + records(text.skip(end + 1))
    }
}

/// The entry made of the `count`-th command read (counting from 0): its
/// position number is `count + 1`, category and flag are the defaults.
pub open spec fn loaded_entry(fields: Fields, count: int) -> EntryView {
    EntryView {
        name: fields.name,
        desc: fields.desc,
        command: fields.command,
        index: (count + 1) as usize,
        category: DEFAULT_CATEGORY,
        favourite: false,
    }
}

/// The catalog made of the commands read, numbered from 1 in their order.
pub open spec fn loaded_entries(found: Seq<Fields>) -> Seq<EntryView> {
    Seq::new(found.len(), |i: int| loaded_entry(found[i], i))
}

/// An entry that its line can hold: no delimiter in name or description,
/// and no line end in any of the three texts.
pub open spec fn storable(e: EntryView) -> bool {
    &&& !e.name.contains(DELIMITER)
    &&& !e.desc.contains(DELIMITER)
    &&& !e.name.contains(LINE_END)
    &&& !e.desc.contains(LINE_END)
    &&& !e.command.contains(LINE_END)
}

/// `prefix_len` finds the first `stop`: it stays within the text, no
/// character before it is `stop`, and the character at it is, if there is
/// one.
pub proof fn lemma_prefix_len(s: Seq<char>, stop: char)
    ensures
        prefix_len(s, stop) <= s.len(),
        forall|j: int| 0 <= j < prefix_len(s, stop) ==> s[j] != stop,
        prefix_len(s, stop) < s.len() ==> s[prefix_len(s, stop) as int] == stop,
        prefix_len(s, stop) == s.len() <==> !s.contains(stop),
    decreases s.len(),
{
    if s.len() > 0 && s.first() != stop {
        let tail = s.drop_first();
        lemma_prefix_len(tail, stop);
        assert forall|j: int| 0 <= j < prefix_len(s, stop) implies s[j] != stop by {
            if j > 0 {
                assert(s[j] == tail[j - 1]);
            }
        }
    }
}

/// A position that holds `stop`, with no `stop` before it, is the one that
/// `prefix_len` finds; so is the end of a text without `stop`.
pub proof fn lemma_prefix_len_is(s: Seq<char>, stop: char, at: int)
    requires
        0 <= at <= s.len(),
        forall|j: int| 0 <= j < at ==> s[j] != stop,
        at < s.len() ==> s[at] == stop,
    ensures
        prefix_len(s, stop) == at,
{
    lemma_prefix_len(s, stop);
}

/// A text is made of whole lines: it is empty or ends with a line end.
pub open spec fn whole_lines(text: Seq<char>) -> bool {
    text.len() == 0 || text.last() == LINE_END
}

/// The first `stop` of a text is the first `stop` of what it begins with,
/// if that holds one; else it is looked for in what follows.
pub proof fn lemma_prefix_len_concat(a: Seq<char>, b: Seq<char>, stop: char)
    ensures
        a.contains(stop) ==> prefix_len(a + b, stop) == prefix_len(a, stop),
        !a.contains(stop) ==> prefix_len(a + b, stop) == a.len() + prefix_len(b, stop),
{
    lemma_prefix_len(a, stop);
    lemma_prefix_len(b, stop);
    if a.contains(stop) {
        lemma_prefix_len_is(a + b, stop, prefix_len(a, stop) as int);
    } else {
        lemma_prefix_len_is(a + b, stop, (a.len() + prefix_len(b, stop)) as int);
    }
}

/// A line has a meaning exactly when it holds two delimiters or more.
pub proof fn lemma_parse_line_needs_two(line: Seq<char>)
    ensures
        parse_line(line) is Some <==> occurrences(line, DELIMITER) >= 2,
{
    lemma_occurrences_after_first(line, DELIMITER);
    let first = prefix_len(line, DELIMITER) as int;
    lemma_prefix_len(line, DELIMITER);
    if first < line.len() {
        let rest = line.skip(first + 1);
        lemma_occurrences_after_first(rest, DELIMITER);
        lemma_prefix_len(rest, DELIMITER);
    }
}

/// A text without `c` holds it zero times; else it holds it once more than
/// the text after the first `c` does.
pub proof fn lemma_occurrences_after_first(s: Seq<char>, c: char)
    ensures
        prefix_len(s, c) >= s.len() ==> occurrences(s, c) == 0,
        prefix_len(s, c) < s.len() ==> occurrences(s, c) == 1 + occurrences(
            s.skip(prefix_len(s, c) as int + 1),
            c,
        ),
    decreases s.len(),
{
    lemma_prefix_len(s, c);
    if s.len() > 0 && s.first() != c {
        let tail = s.drop_first();
        lemma_occurrences_after_first(tail, c);
        lemma_prefix_len(tail, c);
        if prefix_len(tail, c) < tail.len() {
            assert(tail.skip(prefix_len(tail, c) as int + 1) =~= s.skip(
                prefix_len(s, c) as int + 1,
            ));
        }
    }
}

/// The line that stores an entry means that entry's three texts, as long as
/// neither name nor description holds a delimiter.
pub proof fn lemma_parse_formatted(e: EntryView)
    requires
        !e.name.contains(DELIMITER),
        !e.desc.contains(DELIMITER),
    ensures
        parse_line(format_line(e)) == Some(fields_of(e)),
{
    let mark = seq![DELIMITER];
    let line = format_line(e);
    let after_name = mark + e.desc + mark + e.command;
    let after_desc = mark + e.command;
    assert(line =~= e.name + after_name);
    lemma_prefix_len_concat(e.name, after_name, DELIMITER);
    lemma_prefix_len_is(after_name, DELIMITER, 0);
    let first = prefix_len(line, DELIMITER) as int;
    let rest = line.skip(first + 1);
    assert(rest =~= e.desc + after_desc);
    lemma_prefix_len_concat(e.desc, after_desc, DELIMITER);
    lemma_prefix_len_is(after_desc, DELIMITER, 0);
    let second = prefix_len(rest, DELIMITER) as int;
    assert(line.take(first) =~= e.name);
    assert(rest.take(second) =~= e.desc);
    assert(rest.skip(second + 1) =~= e.command);
}

/// A text made of one line and its line end holds what the line holds.
pub proof fn lemma_records_one_line(line: Seq<char>)
    requires
        !line.contains(LINE_END),
    ensures
        records(line + seq![LINE_END]) == line_records(line),
{
    let text = line + seq![LINE_END];
    lemma_prefix_len_concat(line, seq![LINE_END], LINE_END);
    lemma_prefix_len_is(seq![LINE_END], LINE_END, 0);
    let end = prefix_len(text, LINE_END) as int;
    assert(text.take(end) =~= line);
    assert(text.skip(end + 1) =~= Seq::<char>::empty());
    lemma_records_empty();
}

/// An empty text holds no command.
pub proof fn lemma_records_empty()
    ensures
        records(Seq::<char>::empty()) == Seq::<Fields>::empty(),
{
}

/// What a text holds is what its lines hold, one after the other: after a
/// text of whole lines, a second text adds its own commands.
pub proof fn lemma_records_concat(a: Seq<char>, b: Seq<char>)
    requires
        whole_lines(a),
    ensures
        records(a + b) == records(a) + records(b),
    decreases a.len(),
{
    if a.len() == 0 {
        lemma_records_empty();
    } else {
        lemma_prefix_len(a, LINE_END);
        lemma_prefix_len_concat(a, b, LINE_END);
        let end = prefix_len(a, LINE_END) as int;
        let rest = a.skip(end + 1);
        assert((a + b).take(end) =~= a.take(end));
        assert((a + b).skip(end + 1) =~= rest + b);
        lemma_records_concat(rest, b);
    }
}

/// The text that stores a catalog is made of whole lines.
pub proof fn lemma_serialized_whole_lines(entries: Seq<EntryView>)
    ensures
        whole_lines(serialized(entries)),
{
}

/// Writing and reading round-trip: the text that stores a catalog holds,
/// entry by entry and in the same order, the three texts of each entry, as
/// long as every entry is storable. Read back, the entries are numbered from
/// 1 and carry the default category and flag, whatever they carried before.
pub proof fn lemma_persistence_round_trip(entries: Seq<EntryView>)
    requires
        forall|i: int| 0 <= i < entries.len() ==> storable(#[trigger] entries[i]),
    ensures
        records(serialized(entries)) == entries.map_values(|e: EntryView| fields_of(e)),
        loaded_entries(records(serialized(entries))).len() == entries.len(),
        forall|i: int|
            0 <= i < entries.len() ==> {
                let read = #[trigger] loaded_entries(records(serialized(entries)))[i];
                &&& read.name == entries[i].name
                &&& read.desc == entries[i].desc
                &&& read.command == entries[i].command
                &&& read.index == (i + 1) as usize
                &&& read.category == DEFAULT_CATEGORY
                &&& !read.favourite
            },
    decreases entries.len(),
{
    if entries.len() == 0 {
        lemma_records_empty();
    } else {
        let before = entries.drop_last();
        let last = entries.last();
        let line = format_line(last);
        lemma_persistence_round_trip(before);
        lemma_serialized_whole_lines(before);
        assert(serialized(entries) =~= serialized(before) + (line + seq![LINE_END]));
        lemma_records_concat(serialized(before), line + seq![LINE_END]);
        lemma_records_one_line(line);
        lemma_parse_formatted(last);
        assert(records(serialized(entries)) =~= entries.map_values(|e: EntryView| fields_of(e)));
    }
}

/// A line with fewer than two delimiters is skipped: the text holds what
/// the lines before it and the text after it hold, as if the line were not
/// there.
pub proof fn lemma_malformed_line_skipped(before: Seq<char>, line: Seq<char>, after: Seq<char>)
    requires
        whole_lines(before),
        !line.contains(LINE_END),
        occurrences(line, DELIMITER) < 2,
    ensures
        parse_line(line) is None,
        records(before + line + seq![LINE_END] + after) == records(before) + records(after),
{
    lemma_parse_line_needs_two(line);
    let stored = line + seq![LINE_END];
    assert(before + line + seq![LINE_END] + after =~= before + (stored + after));
    lemma_records_concat(before, stored + after);
    lemma_records_concat(stored, after);
    lemma_records_one_line(line);
}

/// The position of the first `stop` in `chars[from..to]`, or `to` where
/// there is none.
pub fn find_char(chars: &[char], from: usize, to: usize, stop: char) -> (at: usize)
    requires
        from <= to <= chars.len(),
    ensures
        from <= at <= to,
        at - from == prefix_len(chars@.subrange(from as int, to as int), stop),
{
    let mut at: usize = from;
    while at < to && chars[at] != stop
        invariant
            from <= at <= to <= chars.len(),
            forall|j: int| from <= j < at ==> chars@[j] != stop,
        decreases to - at,
    {
        at += 1;
    }
    proof {
        lemma_prefix_len_is(chars@.subrange(from as int, to as int), stop, at - from);
    }
    at
}

/// The three texts that the line `chars[from..to]` means, or `None` for a
/// line with fewer than two delimiters.
pub fn parse_fields(chars: &[char], from: usize, to: usize) -> (fields: Option<
    (String, String, String),
>)
    requires
        from <= to <= chars.len(),
    ensures
        match fields {
            Some((name, desc, command)) => from + 2 <= to && parse_line(
                chars@.subrange(from as int, to as int),
            ) == Some(Fields { name: name@, desc: desc@, command: command@ }),
            None => parse_line(chars@.subrange(from as int, to as int)) is None,
        },
{
    let ghost line = chars@.subrange(from as int, to as int);
    let first = find_char(chars, from, to, DELIMITER);
    if first >= to {
        return None;
    }
    let ghost rest = line.skip(first - from + 1);
    assert(rest =~= chars@.subrange(first + 1, to as int));
    let second = find_char(chars, first + 1, to, DELIMITER);
    if second >= to {
        return None;
    }
    let name = substring(chars, from, first);
    let desc = substring(chars, first + 1, second);
    let command = substring(chars, second + 1, to);
    assert(line.take(first - from) =~= name@);
    assert(rest.take(second - first - 1) =~= desc@);
    assert(rest.skip(second - first) =~= command@);
    Some((name, desc, command))
}

/// The three texts that a line means, or `None` for a line with fewer than
/// two delimiters.
pub fn parse_command_line(line: &str) -> (fields: Option<(String, String, String)>)
    ensures
        match fields {
            Some((name, desc, command)) => parse_line(line@) == Some(
                Fields { name: name@, desc: desc@, command: command@ },
            ),
            None => parse_line(line@) is None,
        },
{
    let chars = to_chars(line);
    assert(chars@.subrange(0, chars.len() as int) =~= line@);
    parse_fields(chars.as_slice(), 0, chars.len())
}

/// The catalog that a stored text holds: one entry for each line that has
/// two delimiters, in the order of the lines, numbered from 1, with the
/// default category and flag. Other lines are skipped.
pub fn parse_commands(text: &str) -> (commands: Vec<BashCmd>)
    ensures
        commands.deep_view() == loaded_entries(records(text@)),
{
    let chars = to_chars(text);
    let mut commands: Vec<BashCmd> = Vec::new();
    let mut start: usize = 0;
    let mut finished = false;
    let ghost mut found: Seq<Fields> = Seq::empty();
    assert(chars@.skip(0) =~= chars@);
    while !finished
        invariant
            start <= chars.len(),
            !finished ==> commands.len() <= start,
            chars@ == text@,
            commands.deep_view() == loaded_entries(found),
            !finished ==> records(text@) == found + records(chars@.skip(start as int)),
            finished ==> records(text@) == found,
        decreases chars.len() - start + (if finished { 0nat } else { 1nat }),
    {
        let ghost rest = chars@.skip(start as int);
        let ghost before = commands.deep_view();
        let end = find_char(chars.as_slice(), start, chars.len(), LINE_END);
        let ghost line = chars@.subrange(start as int, end as int);
        assert(rest.take(end - start) =~= line);
        let ghost mut held: Seq<Fields> = Seq::empty();
        match parse_fields(chars.as_slice(), start, end) {
            Some((name, desc, command)) => {
                let index = commands.len() + 1;
                proof {
                    held = seq![Fields { name: name@, desc: desc@, command: command@ }];
                }
                commands.push(
                    BashCmd {
                        name,
                        desc,
                        command,
                        index,
                        category: DEFAULT_CATEGORY,
                        favourite: false,
                    },
                );
                proof {
                    let grown = loaded_entries(found + held);
                    assert(before.len() == found.len());
                    assert forall|k: int| 0 <= k < grown.len() implies commands.deep_view()[k]
                        == grown[k] by {
                        if k < found.len() {
                            assert(commands.deep_view()[k] == before[k]);
                        }
                    }
                }
            },
            None => {},
        }
        if end >= chars.len() {
            proof {
                found = found + held;
            }
            finished = true;
        } else {
            proof {
                assert(rest.skip(end - start + 1) =~= chars@.skip(end + 1));
                found = found + held;
            }
            start = end + 1;
        }
    }
    commands
}

/// The line that stores `command`: its name, description and command line
/// with a delimiter between them, without a line end.
pub fn format_command_line(command: &BashCmd) -> (line: String)
    ensures
        line@ == format_line(command@),
{
    let mut line = command.name.clone();
    line.push(DELIMITER);
    line.append(command.desc.as_str());
    line.push(DELIMITER);
    line.append(command.command.as_str());
    line
}

/// The text that stores `items`: the line of each, in order, each followed
/// by a line end.
pub fn serialize_commands(items: &Vec<BashCmd>) -> (text: String)
    ensures
        text@ == serialized(items.deep_view()),
{
    let mut text = String::new();
    let mut i: usize = 0;
    while i < items.len()
        invariant
            i <= items.len(),
            text@ == serialized(items.deep_view().take(i as int)),
        decreases items.len() - i,
    {
        let line = format_command_line(&items[i]);
        text.append(line.as_str());
        text.push(LINE_END);
        assert(items.deep_view().take(i + 1).drop_last() =~= items.deep_view().take(i as int));
        i += 1;
    }
    assert(items.deep_view().take(i as int) =~= items.deep_view());
    text
}

} // verus!
