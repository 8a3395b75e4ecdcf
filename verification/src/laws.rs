//! What holds of the session's operations taken together: the state stays
//! consistent, setting a filter twice is setting it once, the cursor wraps
//! around, and what the form saves is what was typed into it.

use crate::app::{Field, PopupMode};
use crate::filter::lemma_positions_rows;
use crate::model::{
    advance_focus, close_popup, commit, confirm, fill_form, input_backspace, input_char,
    input_of, leave_edit, match_positions, name_matches, open_add, open_edit, pop_filter,
    push_filter, quit, refresh, select_next, select_next_times, select_previous, set_filter,
    type_text, unselect, well_formed, with_form_contents, with_input, EntryView, PopupView,
    SessionView, DEFAULT_CATEGORY,
};
use vstd::prelude::*;

verus! {

/// Recomputing the list makes the state consistent, whatever it was: the
/// list shows exactly the entries that pass the filter, and the cursor
/// points into it. So does every change of the filter.
pub proof fn lemma_refresh_well_formed(s: SessionView, filter: Seq<char>, ch: char)
    ensures
        well_formed(refresh(s)),
        well_formed(set_filter(s, filter)),
        well_formed(push_filter(s, ch)),
        well_formed(pop_filter(s)),
{
}

/// Moving the cursor keeps a consistent state consistent.
pub proof fn lemma_navigation_well_formed(s: SessionView)
    requires
        well_formed(s),
        s.shown.len() <= usize::MAX,
    ensures
        well_formed(select_next(s)),
        well_formed(select_previous(s)),
        well_formed(unselect(s)),
{
}

/// Opening, filling and closing the form changes neither catalog, filter,
/// list nor cursor, so it keeps a consistent state consistent.
pub proof fn lemma_form_well_formed(s: SessionView, row: usize, ch: char)
    requires
        well_formed(s),
    ensures
        well_formed(open_add(s)),
        well_formed(open_edit(s, row)),
        well_formed(close_popup(s)),
        well_formed(leave_edit(s)),
        well_formed(advance_focus(s)),
        well_formed(input_char(s, ch)),
        well_formed(input_backspace(s)),
{
}

/// Saving the form, choosing a command and quitting keep a consistent state
/// consistent.
pub proof fn lemma_ending_well_formed(s: SessionView)
    requires
        well_formed(s),
    ensures
        well_formed(commit(s)),
        well_formed(confirm(s)),
        well_formed(quit(s)),
{
}

/// The list is always made of entries of the catalog: each row of a
/// consistent state shows the catalog's entry at an ascending position, and
/// that entry passes the filter.
pub proof fn lemma_shown_from_catalog(s: SessionView, row: int)
    requires
        well_formed(s),
        0 <= row < s.shown.len(),
    ensures
        match_positions(s.catalog, s.filter).len() == s.shown.len(),
        0 <= match_positions(s.catalog, s.filter)[row] < s.catalog.len(),
        s.shown[row] == s.catalog[match_positions(s.catalog, s.filter)[row]],
        s.shown.len() <= s.catalog.len(),
{
    lemma_positions_rows(s.catalog, s.filter);
    s.catalog.lemma_filter_len(|e: EntryView| name_matches(e.name, s.filter));
}

/// Setting a filter a second time changes nothing: the list, and all the
/// rest of the state, are as after the first time.
pub proof fn lemma_set_filter_idempotent(s: SessionView, filter: Seq<char>)
    ensures
        set_filter(set_filter(s, filter), filter) == set_filter(s, filter),
        set_filter(set_filter(s, filter), filter).shown == set_filter(s, filter).shown,
{
}

/// From the first row, `k` steps down reach row `k`, as long as the list
/// has that row.
pub proof fn lemma_next_steps(s: SessionView, k: nat)
    requires
        s.cursor == Some(0usize),
        k < s.shown.len() <= usize::MAX,
    ensures
        select_next_times(s, k) == (SessionView { cursor: Some(k as usize), ..s }),
    decreases k,
{
    if k > 0 {
        lemma_next_steps(s, (k - 1) as nat);
    }
}

/// The cursor wraps around: on a list of N rows, N steps down from the first
/// row lead back to the first row, and one step up from the first row leads
/// to the last.
pub proof fn lemma_navigation_wraps_around(s: SessionView)
    requires
        s.cursor == Some(0usize),
        0 < s.shown.len() <= usize::MAX,
    ensures
        select_next_times(s, s.shown.len()) == s,
        select_previous(s).cursor == Some((s.shown.len() - 1) as usize),
{
    lemma_next_steps(s, (s.shown.len() - 1) as nat);
}

/// Typing a text into an open form appends it to the focused field and
/// changes nothing else.
pub proof fn lemma_type_text(s: SessionView, text: Seq<char>)
    requires
        s.popup is Some,
    ensures
        type_text(s, text) == (SessionView {
            popup: Some(
                with_input(
                    s.popup.unwrap(),
                    s.popup.unwrap().focused,
                    input_of(s.popup.unwrap(), s.popup.unwrap().focused) + text,
                ),
            ),
            ..s
        }),
    decreases text.len(),
{
    if text.len() > 0 {
        let p = s.popup.unwrap();
        lemma_type_text(s, text.drop_last());
        assert((input_of(p, p.focused) + text.drop_last()).push(text.last()) =~= input_of(
            p,
            p.focused,
        ) + text);
    }
}

/// Typing into the form, deleting from it and moving its focus change the
/// form's inputs and focus only: what saving it does, and all the rest of
/// the state, stay as they are.
pub proof fn lemma_form_edits(s: SessionView, ch: char)
    requires
        s.popup is Some,
    ensures
        ({
            let p = input_char(s, ch).popup.unwrap();
            input_char(s, ch) == with_form_contents(
                s,
                p.focused,
                p.name_input,
                p.desc_input,
                p.command_input,
            )
        }),
        ({
            let p = input_backspace(s).popup.unwrap();
            input_backspace(s) == with_form_contents(
                s,
                p.focused,
                p.name_input,
                p.desc_input,
                p.command_input,
            )
        }),
        ({
            let p = advance_focus(s).popup.unwrap();
            advance_focus(s) == with_form_contents(
                s,
                p.focused,
                p.name_input,
                p.desc_input,
                p.command_input,
            )
        }),
{
}

/// Adding round-trips: once the form for a new command is opened, filled
/// with three texts and saved, the catalog is one entry longer, the entries
/// it had are unchanged, the new entry holds the three texts, its position
/// number is the new length, and the form is closed.
pub proof fn lemma_add_round_trip(
    s: SessionView,
    name: Seq<char>,
    desc: Seq<char>,
    command: Seq<char>,
)
    requires
        s.catalog.len() < usize::MAX,
    ensures
        ({
            let after = commit(fill_form(open_add(s), name, desc, command));
            &&& after.catalog.len() == s.catalog.len() + 1
            &&& after.catalog.drop_last() == s.catalog
            &&& after.catalog.last().name == name
            &&& after.catalog.last().desc == desc
            &&& after.catalog.last().command == command
            &&& after.catalog.last().index == s.catalog.len() + 1
            &&& after.catalog.last().category == DEFAULT_CATEGORY
            &&& !after.catalog.last().favourite
            &&& after.popup is None
            &&& well_formed(after)
        }),
{
    let opened = open_add(s);
    lemma_type_text(opened, name);
    let at_desc = advance_focus(type_text(opened, name));
    lemma_type_text(at_desc, desc);
    let at_command = advance_focus(type_text(at_desc, desc));
    lemma_type_text(at_command, command);
}

/// Editing round-trips: once the form is opened on row `row` of a consistent
/// list, its contents are changed to any three texts and it is saved, the
/// catalog is as long as before, the entry that the row showed holds the
/// three texts and is otherwise as it was, every other entry is unchanged,
/// and the form is closed.
pub proof fn lemma_edit_round_trip(
    s: SessionView,
    row: usize,
    focused: Field,
    name: Seq<char>,
    desc: Seq<char>,
    command: Seq<char>,
)
    requires
        well_formed(s),
        row < s.shown.len(),
    ensures
        ({
            let target = match_positions(s.catalog, s.filter)[row as int];
            let after = commit(
                with_form_contents(open_edit(s, row), focused, name, desc, command),
            );
            &&& 0 <= target < s.catalog.len()
            &&& s.catalog[target] == s.shown[row as int]
            &&& after.catalog.len() == s.catalog.len()
            &&& after.catalog[target].name == name
            &&& after.catalog[target].desc == desc
            &&& after.catalog[target].command == command
            &&& after.catalog[target].index == s.catalog[target].index
            &&& after.catalog[target].category == s.catalog[target].category
            &&& after.catalog[target].favourite == s.catalog[target].favourite
            &&& forall|j: int|
                0 <= j < s.catalog.len() && j != target ==> after.catalog[j] == s.catalog[j]
            &&& after.popup is None
            &&& well_formed(after)
        }),
{
    lemma_positions_rows(s.catalog, s.filter);
}

/// The form opened on a row of the list starts with the three texts of the
/// entry shown there.
pub proof fn lemma_edit_starts_from_entry(s: SessionView, row: usize)
    requires
        row < s.shown.len(),
    ensures
        open_edit(s, row).popup == Some(
            PopupView {
                focused: Field::Name,
                name_input: s.shown[row as int].name,
                desc_input: s.shown[row as int].desc,
                command_input: s.shown[row as int].command,
                mode: PopupMode::Editing(row),
            },
        ),
{
}

} // verus!
