//! The session state: the catalog, the list that the filter leaves of it,
//! the cursor, the add/edit form and the command chosen for execution.
//!
//! Every operation states the view of the session after it as a function of
//! the view before it; those functions are in `crate::model`.

use crate::cursor::{reconciled, row_above, row_below, selected_of};
use crate::filter::{filter_entries, find_position};
use crate::model::{
    advance_focus, builtin_entry, close_popup, commit, confirm, confirm_signal, created,
    field_after, initial, input_backspace, input_char, leave_edit, matching, open_add, open_edit,
    pop_filter, pop_input, push_filter, push_input, quit, refresh, revised, select_next,
    select_previous, set_filter, unselect, well_formed, EntryView, PopupView, SessionView,
    DEFAULT_CATEGORY,
};
use ratatui::widgets::ListState;
use vstd::prelude::*;

verus! {

/// One stored command.
#[derive(Debug, PartialEq, Eq)]
pub struct BashCmd {
    /// The label shown in the list.
    pub name: String,
    /// Free text about the command.
    pub desc: String,
    /// The command line to execute.
    pub command: String,
    /// The 1-based position the entry had when it was made or loaded.
    pub index: usize,
    /// A numeric tag, `DEFAULT_CATEGORY` for every entry so far.
    pub category: u8,
    /// Reserved; `false` for every entry so far.
    pub favourite: bool,
}

impl View for BashCmd {
    type V = EntryView;

    open spec fn view(&self) -> EntryView {
        EntryView {
            name: self.name@,
            desc: self.desc@,
            command: self.command@,
            index: self.index,
            category: self.category,
            favourite: self.favourite,
        }
    }
}

impl DeepView for BashCmd {
    type V = EntryView;

    open spec fn deep_view(&self) -> EntryView {
        self@
    }
}

impl Clone for BashCmd {
    fn clone(&self) -> (copy: Self)
        ensures
            copy == *self,
    {
        BashCmd {
            name: self.name.clone(),
            desc: self.desc.clone(),
            command: self.command.clone(),
            index: self.index,
            category: self.category,
            favourite: self.favourite,
        }
    }
}

impl BashCmd {
    /// The entry that a catalog gets when storage gave it none.
    pub fn builtin() -> (entry: BashCmd)
        ensures
            entry@ == builtin_entry(),
    {
        BashCmd {
            name: "ls".to_owned(),
            desc: "List files".to_owned(),
            command: "ls -l".to_owned(),
            index: 1,
            category: DEFAULT_CATEGORY,
            favourite: false,
        }
    }
}

/// A text field of the add/edit form.
#[derive(Clone, Copy, Debug, PartialEq, Eq, Structural)]
pub enum Field {
    Name,
    Description,
    Command,
}

impl Field {
    /// The field that takes the focus after this one: name, description,
    /// command, and name again.
    pub fn following(self) -> (next: Field)
        ensures
            next == field_after(self),
    {
        match self {
            Field::Name => Field::Description,
            Field::Description => Field::Command,
            Field::Command => Field::Name,
        }
    }
}

/// What saving the form does.
#[derive(Clone, Copy, Debug, PartialEq, Eq, Structural)]
pub enum PopupMode {
    /// It adds a new entry to the catalog.
    Adding,
    /// It revises the entry behind this row of the list.
    Editing(usize),
}

/// The add/edit form.
#[derive(Debug, PartialEq, Eq)]
pub struct Popup {
    /// The field that typed characters go to.
    pub focused: Field,
    pub name_input: String,
    pub desc_input: String,
    pub command_input: String,
    pub mode: PopupMode,
}

impl View for Popup {
    type V = PopupView;

    open spec fn view(&self) -> PopupView {
        PopupView {
            focused: self.focused,
            name_input: self.name_input@,
            desc_input: self.desc_input@,
            command_input: self.command_input@,
            mode: self.mode,
        }
    }
}

/// What the loop that feeds keys to the session does next.
#[derive(Clone, Copy, Debug, PartialEq, Eq, Structural)]
pub enum LoopSignal {
    /// It reads the next key.
    Continue,
    /// It writes the catalog to storage and ends with the chosen command, if
    /// any.
    SaveAndExit,
    /// It ends at once, with no command.
    Exit,
}

/// The state of an interactive session.
pub struct App {
    /// Every stored command, in insertion order.
    pub items: Vec<BashCmd>,
    /// The commands that pass the filter, in catalog order.
    pub filtered_items: Vec<BashCmd>,
    /// Holds the cursor: the highlighted row of `filtered_items`.
    pub state: ListState,
    /// The text typed into the filter.
    pub filter_text: String,
    /// The add/edit form while it is open.
    pub popup: Option<Popup>,
    /// The command line chosen for execution.
    pub selected_command_to_execute: Option<String>,
}

/// The view of a form that may be closed.
pub open spec fn popup_view(popup: Option<Popup>) -> Option<PopupView> {
    match popup {
        Some(p) => Some(p@),
        None => None,
    }
}

/// The view of a text that may be absent.
pub open spec fn text_view(text: Option<String>) -> Option<Seq<char>> {
    match text {
        Some(t) => Some(t@),
        None => None,
    }
}

impl View for App {
    type V = SessionView;

    open spec fn view(&self) -> SessionView {
        SessionView {
            catalog: self.items.deep_view(),
            shown: self.filtered_items.deep_view(),
            filter: self.filter_text@,
            cursor: selected_of(self.state),
            popup: popup_view(self.popup),
            pending: text_view(self.selected_command_to_execute),
        }
    }
}

impl App {
    /// Starts a session from the commands found in storage. With none found
    /// the catalog holds the one built-in entry. The list shows the whole
    /// catalog, nothing is highlighted, and the form is closed.
    pub fn new(loaded: Vec<BashCmd>) -> (app: App)
        ensures
            app@ == initial(loaded.deep_view()),
            well_formed(app@),
    {
        let mut items = loaded;
        if items.len() == 0 {
            items.push(BashCmd::builtin());
            assert(items.deep_view() =~= seq![builtin_entry()]);
        }
        let mut app = App {
            items,
            filtered_items: Vec::new(),
            state: ListState::default(),
            filter_text: String::new(),
            popup: None,
            selected_command_to_execute: None,
        };
        app.update_filtered_items();
        app
    }

    /// Recomputes the list from catalog and filter, and brings the cursor
    /// back into it: a cursor past the end goes to the first row, or to none
    /// where the list is empty.
    pub fn update_filtered_items(&mut self)
        ensures
            final(self)@ == refresh(old(self)@),
            well_formed(final(self)@),
            old(self)@.filter.len() == 0 ==> final(self)@.shown == old(self)@.catalog,
    {
        let shown = filter_entries(&self.items, self.filter_text.as_str());
        let len = shown.len();
        self.filtered_items = shown;
        let cursor = self.state.selected();
        if cursor.is_some() && cursor.unwrap() >= len {
            self.state.select(reconciled(cursor, len));
        } else if len == 0 {
            self.state.select(None);
        }
    }

    /// Replaces the filter by `new_text`. The list then shows exactly the
    /// entries whose lowercase names contain the lowercase filter, in catalog
    /// order; an empty filter shows them all.
    pub fn set_filter_text(&mut self, new_text: &str)
        ensures
            final(self)@ == set_filter(old(self)@, new_text@),
            final(self)@.catalog == old(self)@.catalog,
            final(self)@.shown == matching(old(self)@.catalog, new_text@),
            well_formed(final(self)@),
            new_text@.len() == 0 ==> final(self)@.shown == old(self)@.catalog,
    {
        self.filter_text = new_text.to_owned();
        self.update_filtered_items();
    }

    /// Types one character into the filter.
    pub fn add_char_to_filter(&mut self, ch: char)
        ensures
            final(self)@ == push_filter(old(self)@, ch),
            well_formed(final(self)@),
    {
        self.filter_text.push(ch);
        self.update_filtered_items();
    }

    /// Deletes the last character of the filter, if it has one.
    pub fn remove_char_from_filter(&mut self)
        ensures
            final(self)@ == pop_filter(old(self)@),
            well_formed(final(self)@),
    {
        self.filter_text.pop();
        self.update_filtered_items();
    }

    /// Moves the cursor one row down, from the last row to the first. An
    /// empty list changes nothing.
    pub fn next(&mut self)
        ensures
            final(self)@ == select_next(old(self)@),
            well_formed(old(self)@) ==> well_formed(final(self)@),
    {
        let len = self.filtered_items.len();
        if len == 0 {
            return;
        }
        let row = row_below(self.state.selected(), len);
        self.state.select(Some(row));
    }

    /// Moves the cursor one row up, from the first row to the last. An empty
    /// list changes nothing.
    pub fn previous(&mut self)
        ensures
            final(self)@ == select_previous(old(self)@),
            well_formed(old(self)@) ==> well_formed(final(self)@),
    {
        let len = self.filtered_items.len();
        if len == 0 {
            return;
        }
        let row = row_above(self.state.selected(), len);
        self.state.select(Some(row));
    }

    /// Takes the cursor off the list.
    pub fn unselect(&mut self)
        ensures
            final(self)@ == unselect(old(self)@),
            well_formed(old(self)@) ==> well_formed(final(self)@),
    {
        self.state.select(None);
    }

    /// Opens the form for a new command: all inputs empty, the focus on the
    /// name.
    pub fn show_add_popup(&mut self)
        ensures
            final(self)@ == open_add(old(self)@),
            well_formed(old(self)@) ==> well_formed(final(self)@),
    {
        self.popup = Some(
            Popup {
                focused: Field::Name,
                name_input: String::new(),
                desc_input: String::new(),
                command_input: String::new(),
                mode: PopupMode::Adding,
            },
        );
    }

    /// Closes the form and discards its inputs.
    pub fn hide_add_popup(&mut self)
        ensures
            final(self)@ == close_popup(old(self)@),
            well_formed(old(self)@) ==> well_formed(final(self)@),
    {
        self.popup = None;
    }

    /// Saves the open form and closes it. A form for a new command appends
    /// an entry whose position number is the catalog's new length. A form
    /// editing a row of the list overwrites the three texts of the entry
    /// behind that row, as the filter now resolves it, and nothing where the
    /// list has no such row. The list is then recomputed. With no form open
    /// nothing changes.
    pub fn save_command(&mut self)
        requires
            old(self)@.catalog.len() < usize::MAX,
        ensures
            final(self)@ == commit(old(self)@),
            well_formed(old(self)@) ==> well_formed(final(self)@),
            old(self)@.popup is Some ==> well_formed(final(self)@),
    {
        let popup = self.popup.take();
        match popup {
            Some(form) => {
                match form.mode {
                    PopupMode::Adding => {
                        let index = self.items.len() + 1;
                        self.items.push(
                            BashCmd {
                                name: form.name_input,
                                desc: form.desc_input,
                                command: form.command_input,
                                index,
                                category: DEFAULT_CATEGORY,
                                favourite: false,
                            },
                        );
                        assert(self.items.deep_view() =~= old(self).items.deep_view().push(
                            created(form@, old(self).items.len() as nat),
                        ));
                    },
                    PopupMode::Editing(row) => {
                        match find_position(&self.items, self.filter_text.as_str(), row) {
                            Some(at) => {
                                self.items[at].name = form.name_input;
                                self.items[at].desc = form.desc_input;
                                self.items[at].command = form.command_input;
                                assert(self.items.deep_view() =~= old(self).items.deep_view().update(
                                    at as int,
                                    revised(old(self).items[at as int]@, form@),
                                ));
                            },
                            None => {},
                        }
                    },
                }
                self.update_filtered_items();
            },
            None => {},
        }
    }

    /// Opens the form on row `index` of the list, filled with the texts of
    /// the entry shown there, the focus on the name. A row that the list does
    /// not have changes nothing.
    pub fn enter_edit_mode(&mut self, index: usize)
        ensures
            final(self)@ == open_edit(old(self)@, index),
            well_formed(old(self)@) ==> well_formed(final(self)@),
    {
        if index < self.filtered_items.len() {
            let entry = &self.filtered_items[index];
            self.popup = Some(
                Popup {
                    focused: Field::Name,
                    name_input: entry.name.clone(),
                    desc_input: entry.desc.clone(),
                    command_input: entry.command.clone(),
                    mode: PopupMode::Editing(index),
                },
            );
        }
    }

    /// Turns an open form into one for a new command; its inputs stay.
    pub fn exit_edit_mode(&mut self)
        ensures
            final(self)@ == leave_edit(old(self)@),
            well_formed(old(self)@) ==> well_formed(final(self)@),
    {
        match &mut self.popup {
            Some(form) => {
                form.mode = PopupMode::Adding;
            },
            None => {},
        }
    }

    /// Types one character into the name of an open form.
    pub fn add_char_to_popup_input_name(&mut self, ch: char)
        ensures
            final(self)@ == push_input(old(self)@, Field::Name, ch),
            well_formed(old(self)@) ==> well_formed(final(self)@),
    {
        match &mut self.popup {
            Some(form) => {
                form.name_input.push(ch);
            },
            None => {},
        }
    }

    /// Deletes the last character of the name of an open form.
    pub fn remove_char_from_popup_input_name(&mut self)
        ensures
            final(self)@ == pop_input(old(self)@, Field::Name),
            well_formed(old(self)@) ==> well_formed(final(self)@),
    {
        match &mut self.popup {
            Some(form) => {
                form.name_input.pop();
            },
            None => {},
        }
    }

    /// Types one character into the description of an open form.
    pub fn add_char_to_popup_input_desc(&mut self, ch: char)
        ensures
            final(self)@ == push_input(old(self)@, Field::Description, ch),
            well_formed(old(self)@) ==> well_formed(final(self)@),
    {
        match &mut self.popup {
            Some(form) => {
                form.desc_input.push(ch);
            },
            None => {},
        }
    }

    /// Deletes the last character of the description of an open form.
    pub fn remove_char_from_popup_input_desc(&mut self)
        ensures
            final(self)@ == pop_input(old(self)@, Field::Description),
            well_formed(old(self)@) ==> well_formed(final(self)@),
    {
        match &mut self.popup {
            Some(form) => {
                form.desc_input.pop();
            },
            None => {},
        }
    }

    /// Types one character into the command line of an open form.
    pub fn add_char_to_popup_input_command(&mut self, ch: char)
        ensures
            final(self)@ == push_input(old(self)@, Field::Command, ch),
            well_formed(old(self)@) ==> well_formed(final(self)@),
    {
        match &mut self.popup {
            Some(form) => {
                form.command_input.push(ch);
            },
            None => {},
        }
    }

    /// Deletes the last character of the command line of an open form.
    pub fn remove_char_from_popup_input_command(&mut self)
        ensures
            final(self)@ == pop_input(old(self)@, Field::Command),
            well_formed(old(self)@) ==> well_formed(final(self)@),
    {
        match &mut self.popup {
            Some(form) => {
                form.command_input.pop();
            },
            None => {},
        }
    }

    /// Moves the focus of an open form to its next field.
    pub fn next_popup_input_focus(&mut self)
        ensures
            final(self)@ == advance_focus(old(self)@),
            well_formed(old(self)@) ==> well_formed(final(self)@),
    {
        match &mut self.popup {
            Some(form) => {
                form.focused = form.focused.following();
            },
            None => {},
        }
    }

    /// The focused field of the form, if the form is open.
    pub fn focused_field(&self) -> (field: Option<Field>)
        ensures
            field == match self@.popup {
                Some(p) => Some(p.focused),
                None => None,
            },
    {
        match &self.popup {
            Some(form) => Some(form.focused),
            None => None,
        }
    }

    /// Types one character into the focused field of an open form.
    pub fn input_char(&mut self, ch: char)
        ensures
            final(self)@ == input_char(old(self)@, ch),
            well_formed(old(self)@) ==> well_formed(final(self)@),
    {
        match self.focused_field() {
            Some(Field::Name) => self.add_char_to_popup_input_name(ch),
            Some(Field::Description) => self.add_char_to_popup_input_desc(ch),
            Some(Field::Command) => self.add_char_to_popup_input_command(ch),
            None => {},
        }
    }

    /// Deletes the last character of the focused field of an open form.
    pub fn input_backspace(&mut self)
        ensures
            final(self)@ == input_backspace(old(self)@),
            well_formed(old(self)@) ==> well_formed(final(self)@),
    {
        match self.focused_field() {
            Some(Field::Name) => self.remove_char_from_popup_input_name(),
            Some(Field::Description) => self.remove_char_from_popup_input_desc(),
            Some(Field::Command) => self.remove_char_from_popup_input_command(),
            None => {},
        }
    }

    /// Chooses the highlighted command for execution and ends the loop.
    /// Without a cursor nothing changes and the loop goes on. A cursor that
    /// points past the list ends the loop with no command and nothing saved.
    pub fn confirm_selection(&mut self) -> (signal: LoopSignal)
        requires
            old(self)@.popup is None,
        ensures
            final(self)@ == confirm(old(self)@),
            well_formed(old(self)@) ==> well_formed(final(self)@),
            signal == confirm_signal(old(self)@),
    {
        match self.state.selected() {
            Some(row) => {
                if row < self.filtered_items.len() {
                    self.selected_command_to_execute = Some(
                        self.filtered_items[row].command.clone(),
                    );
                    LoopSignal::SaveAndExit
                } else {
                    self.selected_command_to_execute = None;
                    LoopSignal::Exit
                }
            },
            None => LoopSignal::Continue,
        }
    }

    /// The highlighted entry: the one that the list shows at the cursor, if
    /// the cursor points at a row of the list.
    pub fn selected_command(&self) -> (entry: Option<&BashCmd>)
        ensures
            match entry {
                Some(e) => self@.cursor is Some && self@.cursor.unwrap() < self@.shown.len()
                    && e@ == self@.shown[self@.cursor.unwrap() as int],
                None => self@.cursor is None || self@.cursor.unwrap() >= self@.shown.len(),
            },
    {
        match self.state.selected() {
            Some(row) => {
                if row < self.filtered_items.len() {
                    Some(&self.filtered_items[row])
                } else {
                    None
                }
            },
            None => None,
        }
    }

    /// Ends the loop with no command chosen, whatever is highlighted.
    pub fn quit(&mut self) -> (signal: LoopSignal)
        ensures
            final(self)@ == quit(old(self)@),
            well_formed(old(self)@) ==> well_formed(final(self)@),
            signal == LoopSignal::SaveAndExit,
    {
        self.selected_command_to_execute = None;
        LoopSignal::SaveAndExit
    }
}

} // verus!
