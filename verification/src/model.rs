//! The mathematical model of a session: what each part of the state is, and
//! what every operation makes of it.
//!
//! A session is viewed as a `SessionView`; each operation of `App` is
//! specified by a function here from the view before to the view after.

use crate::app::{Field, LoopSignal, PopupMode};
use crate::text::{contains_seq, lowercase_of, without_last};
use vstd::prelude::*;

verus! {

/// One stored command, as plain values.
pub struct EntryView {
    pub name: Seq<char>,
    pub desc: Seq<char>,
    pub command: Seq<char>,
    pub index: usize,
    pub category: u8,
    pub favourite: bool,
}

/// The add/edit form, as plain values.
pub struct PopupView {
    pub focused: Field,
    pub name_input: Seq<char>,
    pub desc_input: Seq<char>,
    pub command_input: Seq<char>,
    pub mode: PopupMode,
}

/// A whole session, as plain values.
pub struct SessionView {
    /// Every stored command, in insertion order.
    pub catalog: Seq<EntryView>,
    /// The commands shown in the list.
    pub shown: Seq<EntryView>,
    /// The text typed into the filter.
    pub filter: Seq<char>,
    /// The highlighted row of the list.
    pub cursor: Option<usize>,
    /// The add/edit form while it is open.
    pub popup: Option<PopupView>,
    /// The command line chosen for execution.
    pub pending: Option<Seq<char>>,
}

/// The category given to every new command.
pub const DEFAULT_CATEGORY: u8 = 1;

/// A name passes a filter when its lowercase form contains the lowercase
/// form of the filter.
pub open spec fn name_matches(name: Seq<char>, filter: Seq<char>) -> bool {
    contains_seq(lowercase_of(name), lowercase_of(filter))
}

/// The entries of `catalog` whose names pass `filter`, in catalog order.
pub open spec fn matching(catalog: Seq<EntryView>, filter: Seq<char>) -> Seq<EntryView> {
    catalog.filter(|e: EntryView| name_matches(e.name, filter))
}

/// For each entry of `catalog`, whether its name passes `filter`.
pub open spec fn match_marks(catalog: Seq<EntryView>, filter: Seq<char>) -> Seq<bool> {
    Seq::new(catalog.len(), |i: int| name_matches(catalog[i].name, filter))
}

/// The marked positions of `marks`, ascending.
pub open spec fn marked_positions(marks: Seq<bool>) -> Seq<int>
    decreases marks.len(),
{
    if marks.len() == 0 {
        Seq::empty()
    } else {
        let before = marked_positions(marks.drop_last());
        if marks.last() {
            before.push(marks.len() - 1)
        } else {
            before
        }
    }
}

/// The entries of `entries` at the marked positions, in their order.
pub open spec fn kept(entries: Seq<EntryView>, marks: Seq<bool>) -> Seq<EntryView> {
    marked_positions(marks).map_values(|at: int| entries[at])
}

/// The positions in `catalog` of the entries whose names pass `filter`,
/// ascending: row `k` of the list shows the entry at position
/// `match_positions(catalog, filter)[k]`.
pub open spec fn match_positions(catalog: Seq<EntryView>, filter: Seq<char>) -> Seq<int> {
    marked_positions(match_marks(catalog, filter))
}

/// The cursor brought back into a list of `len` rows: one that points past
/// the end goes to the first row, or to none where there is no row.
pub open spec fn reconcile(cursor: Option<usize>, len: nat) -> Option<usize> {
    match cursor {
        Some(i) => if i < len {
            Some(i)
        } else if len == 0 {
            None
        } else {
            Some(0)
        },
        None => None,
    }
}

/// The row below `cursor` in a list of `len` rows; below the last row
/// comes the first.
pub open spec fn next_index(cursor: Option<usize>, len: nat) -> usize {
    match cursor {
        Some(i) => if i + 1 >= len {
            0
        } else {
            (i + 1) as usize
        },
        None => 0,
    }
}

/// The row above `cursor` in a list of `len` rows; above the first row
/// comes the last.
pub open spec fn previous_index(cursor: Option<usize>, len: nat) -> usize {
    match cursor {
        Some(i) => if i == 0 {
            (len - 1) as usize
        } else {
            (i - 1) as usize
        },
        None => 0,
    }
}

/// The field that takes the focus after `field`.
pub open spec fn field_after(field: Field) -> Field {
    match field {
        Field::Name => Field::Description,
        Field::Description => Field::Command,
        Field::Command => Field::Name,
    }
}

/// The state is consistent: the list shows exactly the entries that pass
/// the filter, and the cursor, if any, points at a row of the list.
pub open spec fn well_formed(s: SessionView) -> bool {
    &&& s.shown == matching(s.catalog, s.filter)
    &&& s.cursor matches Some(i) ==> i < s.shown.len()
}

/// The session that starts from the commands found in storage: with none
/// found, the catalog holds the one built-in entry.
pub open spec fn initial(loaded: Seq<EntryView>) -> SessionView {
    let catalog = if loaded.len() > 0 {
        loaded
    } else {
        seq![builtin_entry()]
    };
    SessionView {
        catalog,
        shown: catalog,
        filter: Seq::empty(),
        cursor: None,
        popup: None,
        pending: None,
    }
}

/// The entry of a catalog that storage could not fill.
pub open spec fn builtin_entry() -> EntryView {
    EntryView {
        name: "ls"@,
        desc: "List files"@,
        command: "ls -l"@,
        index: 1,
        category: DEFAULT_CATEGORY,
        favourite: false,
    }
}

/// The list recomputed from catalog and filter, and the cursor reconciled
/// with it.
pub open spec fn refresh(s: SessionView) -> SessionView {
    let shown = matching(s.catalog, s.filter);
    SessionView { shown, cursor: reconcile(s.cursor, shown.len()), ..s }
}

/// The filter replaced by `filter`.
pub open spec fn set_filter(s: SessionView, filter: Seq<char>) -> SessionView {
    refresh(SessionView { filter, ..s })
}

/// One character typed into the filter.
pub open spec fn push_filter(s: SessionView, ch: char) -> SessionView {
    set_filter(s, s.filter.push(ch))
}

/// The last character of the filter deleted.
pub open spec fn pop_filter(s: SessionView) -> SessionView {
    set_filter(s, without_last(s.filter))
}

/// The cursor moved one row down.
pub open spec fn select_next(s: SessionView) -> SessionView {
    if s.shown.len() == 0 {
        s
    } else {
        SessionView { cursor: Some(next_index(s.cursor, s.shown.len())), ..s }
    }
}

/// The cursor moved one row up.
pub open spec fn select_previous(s: SessionView) -> SessionView {
    if s.shown.len() == 0 {
        s
    } else {
        SessionView { cursor: Some(previous_index(s.cursor, s.shown.len())), ..s }
    }
}

/// The cursor moved down `n` times.
pub open spec fn select_next_times(s: SessionView, n: nat) -> SessionView
    decreases n,
{
    if n == 0 {
        s
    } else {
        select_next(select_next_times(s, (n - 1) as nat))
    }
}

/// Nothing highlighted.
pub open spec fn unselect(s: SessionView) -> SessionView {
    SessionView { cursor: None, ..s }
}

/// An empty form for a new command.
pub open spec fn blank_popup() -> PopupView {
    PopupView {
        focused: Field::Name,
        name_input: Seq::empty(),
        desc_input: Seq::empty(),
        command_input: Seq::empty(),
        mode: PopupMode::Adding,
    }
}

/// The form opened for a new command.
pub open spec fn open_add(s: SessionView) -> SessionView {
    SessionView { popup: Some(blank_popup()), ..s }
}

/// The form opened on row `row` of the list, filled with that entry's
/// texts; a row that the list does not have changes nothing.
pub open spec fn open_edit(s: SessionView, row: usize) -> SessionView {
    if row < s.shown.len() {
        let entry = s.shown[row as int];
        SessionView {
            popup: Some(
                PopupView {
                    focused: Field::Name,
                    name_input: entry.name,
                    desc_input: entry.desc,
                    command_input: entry.command,
                    mode: PopupMode::Editing(row),
                },
            ),
            ..s
        }
    } else {
        s
    }
}

/// The form closed, its inputs discarded.
pub open spec fn close_popup(s: SessionView) -> SessionView {
    SessionView { popup: None, ..s }
}

/// The session with its open form replaced by `change` of it; a closed form
/// stays closed.
pub open spec fn with_popup(s: SessionView, change: spec_fn(PopupView) -> PopupView)
    -> SessionView {
    match s.popup {
        Some(p) => SessionView { popup: Some(change(p)), ..s },
        None => s,
    }
}

/// An open form turned into one for a new command, inputs kept.
pub open spec fn leave_edit(s: SessionView) -> SessionView {
    with_popup(s, |p: PopupView| PopupView { mode: PopupMode::Adding, ..p })
}

/// The focus moved to the next field of the form.
pub open spec fn advance_focus(s: SessionView) -> SessionView {
    with_popup(s, |p: PopupView| PopupView { focused: field_after(p.focused), ..p })
}

/// The form with `text` in the field `field`.
pub open spec fn with_input(p: PopupView, field: Field, text: Seq<char>) -> PopupView {
    match field {
        Field::Name => PopupView { name_input: text, ..p },
        Field::Description => PopupView { desc_input: text, ..p },
        Field::Command => PopupView { command_input: text, ..p },
    }
}

/// The text in the field `field` of the form.
pub open spec fn input_of(p: PopupView, field: Field) -> Seq<char> {
    match field {
        Field::Name => p.name_input,
        Field::Description => p.desc_input,
        Field::Command => p.command_input,
    }
}

/// One character typed into the field `field` of an open form.
pub open spec fn push_input(s: SessionView, field: Field, ch: char) -> SessionView {
    with_popup(s, |p: PopupView| with_input(p, field, input_of(p, field).push(ch)))
}

/// The last character of the field `field` of an open form deleted.
pub open spec fn pop_input(s: SessionView, field: Field) -> SessionView {
    with_popup(s, |p: PopupView| with_input(p, field, without_last(input_of(p, field))))
}

/// One character typed into the focused field of an open form.
pub open spec fn input_char(s: SessionView, ch: char) -> SessionView {
    match s.popup {
        Some(p) => push_input(s, p.focused, ch),
        None => s,
    }
}

/// The last character of the focused field of an open form deleted.
pub open spec fn input_backspace(s: SessionView) -> SessionView {
    match s.popup {
        Some(p) => pop_input(s, p.focused),
        None => s,
    }
}

/// The characters of `text` typed one by one into the focused field.
pub open spec fn type_text(s: SessionView, text: Seq<char>) -> SessionView
    decreases text.len(),
{
    if text.len() == 0 {
        s
    } else {
        input_char(type_text(s, text.drop_last()), text.last())
    }
}

/// The three texts typed into a form whose focus is on the name: the name,
/// then the description, then the command line, the focus moved on between
/// them.
pub open spec fn fill_form(
    s: SessionView,
    name: Seq<char>,
    desc: Seq<char>,
    command: Seq<char>,
) -> SessionView {
    type_text(advance_focus(type_text(advance_focus(type_text(s, name)), desc)), command)
}

/// The session with the inputs and the focus of its open form replaced; what
/// saving the form does stays as it is. A closed form stays closed.
pub open spec fn with_form_contents(
    s: SessionView,
    focused: Field,
    name: Seq<char>,
    desc: Seq<char>,
    command: Seq<char>,
) -> SessionView {
    with_popup(
        s,
        |p: PopupView|
            PopupView {
                focused,
                name_input: name,
                desc_input: desc,
                command_input: command,
                mode: p.mode,
            },
    )
}

/// The entry that the form `p` adds to a catalog of `count` entries.
pub open spec fn created(p: PopupView, count: nat) -> EntryView {
    EntryView {
        name: p.name_input,
        desc: p.desc_input,
        command: p.command_input,
        index: (count + 1) as usize,
        category: DEFAULT_CATEGORY,
        favourite: false,
    }
}

/// The entry `e` with its three texts replaced by those of the form `p`.
pub open spec fn revised(e: EntryView, p: PopupView) -> EntryView {
    EntryView { name: p.name_input, desc: p.desc_input, command: p.command_input, ..e }
}

/// The catalog after the form `p` is saved: one entry more for a new
/// command; for an edit of row `row`, the entry behind that row revised, or
/// nothing changed where the list has no such row.
pub open spec fn saved_catalog(catalog: Seq<EntryView>, filter: Seq<char>, p: PopupView) -> Seq<
    EntryView,
> {
    match p.mode {
        PopupMode::Adding => catalog.push(created(p, catalog.len())),
        PopupMode::Editing(row) => {
            let positions = match_positions(catalog, filter);
            if row < positions.len() {
                catalog.update(positions[row as int], revised(catalog[positions[row as int]], p))
            } else {
                catalog
            }
        },
    }
}

/// The open form saved into the catalog and closed, the list recomputed.
/// With no form open nothing changes.
pub open spec fn commit(s: SessionView) -> SessionView {
    match s.popup {
        Some(p) => refresh(
            SessionView { catalog: saved_catalog(s.catalog, s.filter, p), popup: None, ..s },
        ),
        None => s,
    }
}

/// The highlighted command chosen for execution. A cursor that points past
/// the list chooses nothing; without a cursor nothing changes.
pub open spec fn confirm(s: SessionView) -> SessionView {
    match s.cursor {
        Some(i) => if i < s.shown.len() {
            SessionView { pending: Some(s.shown[i as int].command), ..s }
        } else {
            SessionView { pending: None, ..s }
        },
        None => s,
    }
}

/// What choosing the highlighted command tells the loop: to save and end
/// where a row is highlighted, to end at once where the cursor points past
/// the list, to go on where there is no cursor.
pub open spec fn confirm_signal(s: SessionView) -> LoopSignal {
    match s.cursor {
        Some(i) => if i < s.shown.len() {
            LoopSignal::SaveAndExit
        } else {
            LoopSignal::Exit
        },
        None => LoopSignal::Continue,
    }
}

/// The session left without a chosen command.
pub open spec fn quit(s: SessionView) -> SessionView {
    SessionView { pending: None, ..s }
}

} // verus!
