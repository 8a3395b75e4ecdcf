//! What each key does to the session, and where the form is drawn.
//!
//! The loop that reads keys and draws the screen is the caller's part: it
//! hands each key to `handle_key` and does what the returned signal says.

use crate::app::{App, LoopSignal, PopupMode};
use crate::model::{
    advance_focus, close_popup, commit, confirm, confirm_signal, input_backspace, input_char,
    open_add, open_edit, pop_filter, push_filter, quit, select_next, select_previous,
    well_formed, SessionView,
};
use vstd::prelude::*;

verus! {

/// A key press, as the session tells keys apart.
#[derive(Clone, Copy, Debug, PartialEq, Eq, Structural)]
pub enum Key {
    /// A character key pressed without Control.
    Char(char),
    /// A character key pressed with Control held.
    Ctrl(char),
    Enter,
    Esc,
    Tab,
    Backspace,
    Up,
    Down,
    /// Any other key.
    Other,
}

/// The form opened on the highlighted row; without a cursor nothing changes.
pub open spec fn edit_selected(s: SessionView) -> SessionView {
    match s.cursor {
        Some(row) => open_edit(s, row),
        None => s,
    }
}

/// What a key does while the form is closed. Control with `q`, and Escape,
/// quit; Control with `a` opens the form for a new command; Control with `e`
/// opens it on the highlighted row; Enter chooses the highlighted command;
/// Backspace deletes from the filter; Up and Down move the cursor; every
/// other character, with or without Control, goes into the filter.
pub open spec fn list_key(s: SessionView, key: Key) -> (SessionView, LoopSignal) {
    match key {
        Key::Ctrl(c) => if c == 'q' {
            (quit(s), LoopSignal::SaveAndExit)
        } else if c == 'a' {
            (open_add(s), LoopSignal::Continue)
        } else if c == 'e' {
            (edit_selected(s), LoopSignal::Continue)
        } else {
            (push_filter(s, c), LoopSignal::Continue)
        },
        Key::Enter => (confirm(s), confirm_signal(s)),
        Key::Char(c) => (push_filter(s, c), LoopSignal::Continue),
        Key::Backspace => (pop_filter(s), LoopSignal::Continue),
        Key::Down => (select_next(s), LoopSignal::Continue),
        Key::Up => (select_previous(s), LoopSignal::Continue),
        Key::Esc => (quit(s), LoopSignal::SaveAndExit),
        Key::Tab => (s, LoopSignal::Continue),
        Key::Other => (s, LoopSignal::Continue),
    }
}

/// What a key does while the form is open. Escape closes the form, Enter
/// saves it, Tab moves the focus, Backspace deletes from the focused field,
/// and every character, with or without Control, goes into the focused
/// field. The loop always goes on.
pub open spec fn popup_key(s: SessionView, key: Key) -> SessionView {
    match key {
        Key::Esc => close_popup(s),
        Key::Enter => commit(s),
        Key::Tab => advance_focus(s),
        Key::Char(c) => input_char(s, c),
        Key::Ctrl(c) => input_char(s, c),
        Key::Backspace => input_backspace(s),
        Key::Up => s,
        Key::Down => s,
        Key::Other => s,
    }
}

/// What a key does to the session, and what the loop does next.
pub open spec fn dispatch(s: SessionView, key: Key) -> (SessionView, LoopSignal) {
    if s.popup is Some {
        (popup_key(s, key), LoopSignal::Continue)
    } else {
        list_key(s, key)
    }
}

/// Every key keeps a consistent state consistent.
pub proof fn lemma_dispatch_well_formed(s: SessionView, key: Key)
    requires
        well_formed(s),
        s.shown.len() <= usize::MAX,
    ensures
        well_formed(dispatch(s, key).0),
{
}

/// While the form is open it captures the keys: no key but Enter changes
/// catalog, filter, list, cursor or chosen command, and no key ends the
/// loop. So the row that an edit was opened on still shows the same entry
/// when the form is saved.
pub proof fn lemma_popup_captures_keys(s: SessionView, key: Key)
    requires
        s.popup is Some,
    ensures
        dispatch(s, key).1 == LoopSignal::Continue,
        key != Key::Enter ==> {
            let after = dispatch(s, key).0;
            &&& after.catalog == s.catalog
            &&& after.filter == s.filter
            &&& after.shown == s.shown
            &&& after.cursor == s.cursor
            &&& after.pending == s.pending
        },
        key != Key::Enter && key != Key::Esc ==> dispatch(s, key).0.popup is Some && dispatch(
            s,
            key,
        ).0.popup.unwrap().mode == s.popup.unwrap().mode,
{
}

/// Applies one key to the session and tells the loop what to do next.
pub fn handle_key(app: &mut App, key: Key) -> (signal: LoopSignal)
    requires
        old(app)@.catalog.len() < usize::MAX,
    ensures
        (final(app)@, signal) == dispatch(old(app)@, key),
        well_formed(old(app)@) ==> well_formed(final(app)@),
{
    if app.popup.is_some() {
        match key {
            Key::Esc => app.hide_add_popup(),
            Key::Enter => app.save_command(),
            Key::Tab => app.next_popup_input_focus(),
            Key::Char(c) => app.input_char(c),
            Key::Ctrl(c) => app.input_char(c),
            Key::Backspace => app.input_backspace(),
            Key::Up => {},
            Key::Down => {},
            Key::Other => {},
        }
        LoopSignal::Continue
    } else {
        match key {
            Key::Ctrl(c) => {
                if c == 'q' {
                    app.quit()
                } else if c == 'a' {
                    app.show_add_popup();
                    LoopSignal::Continue
                } else if c == 'e' {
                    match app.state.selected() {
                        Some(row) => app.enter_edit_mode(row),
                        None => {},
                    }
                    LoopSignal::Continue
                } else {
                    app.add_char_to_filter(c);
                    LoopSignal::Continue
                }
            },
            Key::Enter => app.confirm_selection(),
            Key::Char(c) => {
                app.add_char_to_filter(c);
                LoopSignal::Continue
            },
            Key::Backspace => {
                app.remove_char_from_filter();
                LoopSignal::Continue
            },
            Key::Down => {
                app.next();
                LoopSignal::Continue
            },
            Key::Up => {
                app.previous();
                LoopSignal::Continue
            },
            Key::Esc => app.quit(),
            Key::Tab => LoopSignal::Continue,
            Key::Other => LoopSignal::Continue,
        }
    }
}

/// The title of the form: what saving it does.
pub fn popup_title(mode: PopupMode) -> (title: &'static str)
    ensures
        title@ == match mode {
            PopupMode::Adding => "Add command"@,
            PopupMode::Editing(_) => "Edit command"@,
        },
{
    match mode {
        PopupMode::Adding => "Add command",
        PopupMode::Editing(_) => "Edit command",
    }
}

/// A rectangle of the screen, in character cells.
#[derive(Clone, Copy, Debug, PartialEq, Eq, Structural)]
pub struct Area {
    pub x: u16,
    pub y: u16,
    pub width: u16,
    pub height: u16,
}

/// The rectangle of the form inside the screen `r`: two cells right of and
/// two cells below the screen's corner, `percent_x` hundredths of its width
/// wide and `percent_y` hundredths of its height high, rounded down.
pub fn left_aligned_rect(percent_x: u16, percent_y: u16, r: Area) -> (popup: Area)
    requires
        r.width * percent_x <= u16::MAX,
        r.height * percent_y <= u16::MAX,
        r.x + 2 <= u16::MAX,
        r.y + 2 <= u16::MAX,
    ensures
        popup.x == r.x + 2,
        popup.y == r.y + 2,
        popup.width == r.width * percent_x / 100,
        popup.height == r.height * percent_y / 100,
{
    let popup_width = r.width * percent_x / 100;
    let popup_height = r.height * percent_y / 100;
    Area { x: r.x + 2, y: r.y + 2, width: popup_width, height: popup_height }
}

} // verus!
