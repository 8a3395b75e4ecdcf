use command_catalog::app::{App, BashCmd, Field, LoopSignal, Popup, PopupMode};

fn entry(name: &str, desc: &str, command: &str, index: usize) -> BashCmd {
    BashCmd {
        name: name.to_string(),
        desc: desc.to_string(),
        command: command.to_string(),
        index,
        category: 1,
        favourite: false,
    }
}

fn sample() -> Vec<BashCmd> {
    vec![
        entry("List", "List files", "ls -l", 1),
        entry("Disk", "Disk usage", "df -h", 2),
        entry("listen", "Open ports", "ss -ltn", 3),
        entry("Who", "Logged in", "who", 4),
    ]
}

fn names(items: &[BashCmd]) -> Vec<String> {
    items.iter().map(|e| e.name.clone()).collect()
}

fn type_into_form(app: &mut App, text: &str) {
    for ch in text.chars() {
        app.input_char(ch);
    }
}

#[test]
fn new_without_stored_commands_holds_the_builtin_entry() {
    let app = App::new(Vec::new());
    assert_eq!(app.items, vec![entry("ls", "List files", "ls -l", 1)]);
    assert_eq!(app.filtered_items, app.items);
    assert_eq!(app.filter_text, "");
    assert_eq!(app.state.selected(), None);
    assert_eq!(app.popup, None);
    assert_eq!(app.selected_command_to_execute, None);
}

#[test]
fn new_with_stored_commands_shows_them_all() {
    let app = App::new(sample());
    assert_eq!(app.items, sample());
    assert_eq!(app.filtered_items, sample());
    assert_eq!(app.state.selected(), None);
}

#[test]
fn filter_keeps_matching_names_in_catalog_order() {
    let mut app = App::new(sample());
    app.set_filter_text("lis");
    assert_eq!(names(&app.filtered_items), vec!["List", "listen"]);
    assert_eq!(app.filter_text, "lis");
    assert_eq!(app.items, sample());
}

#[test]
fn filter_ignores_case_of_name_and_of_filter() {
    let mut app = App::new(sample());
    app.set_filter_text("LIST");
    assert_eq!(names(&app.filtered_items), vec!["List", "listen"]);
    app.set_filter_text("wHo");
    assert_eq!(names(&app.filtered_items), vec!["Who"]);
}

#[test]
fn filter_matches_inside_a_name() {
    let mut app = App::new(sample());
    app.set_filter_text("is");
    assert_eq!(names(&app.filtered_items), vec!["List", "Disk", "listen"]);
}

#[test]
fn filter_looks_at_names_only() {
    let mut app = App::new(sample());
    app.set_filter_text("ports");
    assert!(app.filtered_items.is_empty());
    app.set_filter_text("df");
    assert!(app.filtered_items.is_empty());
}

#[test]
fn empty_filter_shows_everything() {
    let mut app = App::new(sample());
    app.set_filter_text("zzz");
    assert!(app.filtered_items.is_empty());
    app.set_filter_text("");
    assert_eq!(app.filtered_items, sample());
}

#[test]
fn setting_a_filter_twice_is_setting_it_once() {
    let mut app = App::new(sample());
    app.state.select(Some(3));
    app.set_filter_text("li");
    let shown = names(&app.filtered_items);
    let cursor = app.state.selected();
    app.set_filter_text("li");
    assert_eq!(names(&app.filtered_items), shown);
    assert_eq!(app.state.selected(), cursor);
    assert_eq!(shown, vec!["List", "listen"]);
    assert_eq!(cursor, Some(0));
}

#[test]
fn typing_into_the_filter_narrows_the_list() {
    let mut app = App::new(sample());
    app.add_char_to_filter('d');
    assert_eq!(app.filter_text, "d");
    assert_eq!(names(&app.filtered_items), vec!["Disk"]);
    app.add_char_to_filter('x');
    assert_eq!(app.filter_text, "dx");
    assert!(app.filtered_items.is_empty());
}

#[test]
fn deleting_from_the_filter_widens_the_list() {
    let mut app = App::new(sample());
    app.set_filter_text("dx");
    app.remove_char_from_filter();
    assert_eq!(app.filter_text, "d");
    assert_eq!(names(&app.filtered_items), vec!["Disk"]);
    app.remove_char_from_filter();
    assert_eq!(app.filter_text, "");
    assert_eq!(app.filtered_items.len(), 4);
    app.remove_char_from_filter();
    assert_eq!(app.filter_text, "");
    assert_eq!(app.filtered_items.len(), 4);
}

#[test]
fn cursor_past_a_shrunken_list_goes_to_the_first_row() {
    let mut app = App::new(sample());
    app.state.select(Some(2));
    app.set_filter_text("li");
    assert_eq!(app.filtered_items.len(), 2);
    assert_eq!(app.state.selected(), Some(0));
}

#[test]
fn cursor_inside_a_shrunken_list_stays() {
    let mut app = App::new(sample());
    app.state.select(Some(1));
    app.set_filter_text("li");
    assert_eq!(app.state.selected(), Some(1));
}

#[test]
fn cursor_on_an_emptied_list_is_dropped() {
    let mut app = App::new(sample());
    app.state.select(Some(0));
    app.set_filter_text("zzz");
    assert_eq!(app.state.selected(), None);
    app.set_filter_text("");
    assert_eq!(app.state.selected(), None);
}

#[test]
fn next_starts_at_the_first_row_and_wraps_around() {
    let mut app = App::new(sample());
    app.next();
    assert_eq!(app.state.selected(), Some(0));
    app.next();
    assert_eq!(app.state.selected(), Some(1));
    app.next();
    app.next();
    assert_eq!(app.state.selected(), Some(3));
    app.next();
    assert_eq!(app.state.selected(), Some(0));
}

#[test]
fn next_applied_once_per_row_returns_to_the_first_row() {
    let mut app = App::new(sample());
    app.state.select(Some(0));
    for _ in 0..app.filtered_items.len() {
        app.next();
    }
    assert_eq!(app.state.selected(), Some(0));
}

#[test]
fn previous_from_the_first_row_goes_to_the_last() {
    let mut app = App::new(sample());
    app.state.select(Some(0));
    app.previous();
    assert_eq!(app.state.selected(), Some(3));
    app.previous();
    assert_eq!(app.state.selected(), Some(2));
}

#[test]
fn previous_without_a_cursor_goes_to_the_first_row() {
    let mut app = App::new(sample());
    app.previous();
    assert_eq!(app.state.selected(), Some(0));
}

#[test]
fn navigation_on_an_empty_list_changes_nothing() {
    let mut app = App::new(sample());
    app.set_filter_text("zzz");
    app.next();
    assert_eq!(app.state.selected(), None);
    app.previous();
    assert_eq!(app.state.selected(), None);
}

#[test]
fn navigation_on_a_single_row_stays_there() {
    let mut app = App::new(Vec::new());
    app.next();
    assert_eq!(app.state.selected(), Some(0));
    app.next();
    assert_eq!(app.state.selected(), Some(0));
    app.previous();
    assert_eq!(app.state.selected(), Some(0));
}

#[test]
fn selected_command_is_the_row_under_the_cursor() {
    let mut app = App::new(sample());
    assert_eq!(app.selected_command(), None);
    app.set_filter_text("li");
    app.next();
    app.next();
    assert_eq!(app.selected_command(), Some(&sample()[2]));
    app.state.select(Some(2));
    assert_eq!(app.selected_command(), None);
}

#[test]
fn unselect_drops_the_cursor() {
    let mut app = App::new(sample());
    app.next();
    app.unselect();
    assert_eq!(app.state.selected(), None);
}

#[test]
fn add_popup_opens_empty_with_focus_on_the_name() {
    let mut app = App::new(sample());
    app.show_add_popup();
    assert_eq!(
        app.popup,
        Some(Popup {
            focused: Field::Name,
            name_input: String::new(),
            desc_input: String::new(),
            command_input: String::new(),
            mode: PopupMode::Adding,
        })
    );
}

#[test]
fn add_popup_reopened_is_empty_again() {
    let mut app = App::new(sample());
    app.show_add_popup();
    type_into_form(&mut app, "abc");
    app.next_popup_input_focus();
    app.show_add_popup();
    let form = app.popup.as_ref().unwrap();
    assert_eq!(form.name_input, "");
    assert_eq!(form.focused, Field::Name);
}

#[test]
fn focus_cycles_through_the_three_fields() {
    let mut app = App::new(sample());
    app.show_add_popup();
    assert_eq!(app.focused_field(), Some(Field::Name));
    app.next_popup_input_focus();
    assert_eq!(app.focused_field(), Some(Field::Description));
    app.next_popup_input_focus();
    assert_eq!(app.focused_field(), Some(Field::Command));
    app.next_popup_input_focus();
    assert_eq!(app.focused_field(), Some(Field::Name));
    assert_eq!(Field::Command.following(), Field::Name);
}

#[test]
fn typed_characters_go_to_the_focused_field() {
    let mut app = App::new(sample());
    app.show_add_popup();
    type_into_form(&mut app, "up");
    app.next_popup_input_focus();
    type_into_form(&mut app, "Uptime");
    app.next_popup_input_focus();
    type_into_form(&mut app, "uptime -p");
    let form = app.popup.as_ref().unwrap();
    assert_eq!(form.name_input, "up");
    assert_eq!(form.desc_input, "Uptime");
    assert_eq!(form.command_input, "uptime -p");
    assert_eq!(app.filter_text, "");
}

#[test]
fn backspace_deletes_from_the_focused_field() {
    let mut app = App::new(sample());
    app.show_add_popup();
    type_into_form(&mut app, "ab");
    app.next_popup_input_focus();
    type_into_form(&mut app, "cd");
    app.input_backspace();
    let form = app.popup.as_ref().unwrap();
    assert_eq!(form.name_input, "ab");
    assert_eq!(form.desc_input, "c");
    app.input_backspace();
    app.input_backspace();
    assert_eq!(app.popup.as_ref().unwrap().desc_input, "");
    assert_eq!(app.popup.as_ref().unwrap().name_input, "ab");
}

#[test]
fn each_field_has_its_own_typing_and_deleting() {
    let mut app = App::new(sample());
    app.show_add_popup();
    app.add_char_to_popup_input_name('n');
    app.add_char_to_popup_input_name('m');
    app.add_char_to_popup_input_desc('d');
    app.add_char_to_popup_input_desc('e');
    app.add_char_to_popup_input_command('c');
    app.add_char_to_popup_input_command('o');
    app.remove_char_from_popup_input_name();
    app.remove_char_from_popup_input_desc();
    app.remove_char_from_popup_input_command();
    let form = app.popup.as_ref().unwrap();
    assert_eq!(form.name_input, "n");
    assert_eq!(form.desc_input, "d");
    assert_eq!(form.command_input, "c");
    assert_eq!(form.focused, Field::Name);
}

#[test]
fn form_operations_on_a_closed_form_change_nothing() {
    let mut app = App::new(sample());
    app.input_char('x');
    app.input_backspace();
    app.add_char_to_popup_input_name('x');
    app.remove_char_from_popup_input_command();
    app.next_popup_input_focus();
    app.exit_edit_mode();
    app.save_command();
    assert_eq!(app.popup, None);
    assert_eq!(app.items, sample());
    assert_eq!(app.filter_text, "");
    assert_eq!(app.focused_field(), None);
}

#[test]
fn add_round_trip_appends_one_entry() {
    let mut app = App::new(sample());
    app.show_add_popup();
    type_into_form(&mut app, "up");
    app.next_popup_input_focus();
    type_into_form(&mut app, "Uptime");
    app.next_popup_input_focus();
    type_into_form(&mut app, "uptime -p");
    app.save_command();
    assert_eq!(app.items.len(), 5);
    assert_eq!(app.items[..4], sample()[..]);
    assert_eq!(app.items[4], entry("up", "Uptime", "uptime -p", 5));
    assert_eq!(app.popup, None);
    assert_eq!(app.filtered_items.len(), 5);
}

#[test]
fn added_entry_is_shown_only_if_it_passes_the_filter() {
    let mut app = App::new(sample());
    app.set_filter_text("li");
    app.show_add_popup();
    type_into_form(&mut app, "up");
    app.save_command();
    assert_eq!(app.items.len(), 5);
    assert_eq!(names(&app.filtered_items), vec!["List", "listen"]);
    app.show_add_popup();
    type_into_form(&mut app, "Client");
    app.save_command();
    assert_eq!(names(&app.filtered_items), vec!["List", "listen", "Client"]);
    assert_eq!(app.items[5].index, 6);
}

#[test]
fn empty_form_is_saved_as_an_empty_entry() {
    let mut app = App::new(Vec::new());
    app.show_add_popup();
    app.save_command();
    assert_eq!(app.items.len(), 2);
    assert_eq!(app.items[1], entry("", "", "", 2));
}

#[test]
fn edit_popup_starts_from_the_row_s_texts() {
    let mut app = App::new(sample());
    app.enter_edit_mode(1);
    assert_eq!(
        app.popup,
        Some(Popup {
            focused: Field::Name,
            name_input: "Disk".to_string(),
            desc_input: "Disk usage".to_string(),
            command_input: "df -h".to_string(),
            mode: PopupMode::Editing(1),
        })
    );
}

#[test]
fn edit_popup_on_a_missing_row_is_ignored() {
    let mut app = App::new(sample());
    app.enter_edit_mode(4);
    assert_eq!(app.popup, None);
    app.set_filter_text("li");
    app.enter_edit_mode(2);
    assert_eq!(app.popup, None);
}

#[test]
fn edit_round_trip_overwrites_the_three_texts() {
    let mut app = App::new(sample());
    app.enter_edit_mode(1);
    type_into_form(&mut app, "s");
    app.next_popup_input_focus();
    app.next_popup_input_focus();
    type_into_form(&mut app, " /");
    app.save_command();
    assert_eq!(app.items.len(), 4);
    assert_eq!(app.items[1], entry("Disks", "Disk usage", "df -h /", 2));
    assert_eq!(app.items[0], sample()[0]);
    assert_eq!(app.items[2], sample()[2]);
    assert_eq!(app.items[3], sample()[3]);
    assert_eq!(app.popup, None);
    assert_eq!(app.filtered_items, app.items);
}

#[test]
fn edit_reaches_the_entry_behind_the_filtered_row() {
    let mut app = App::new(sample());
    app.set_filter_text("li");
    app.enter_edit_mode(1);
    assert_eq!(app.popup.as_ref().unwrap().name_input, "listen");
    app.input_backspace();
    app.input_backspace();
    app.save_command();
    assert_eq!(app.items[2], entry("list", "Open ports", "ss -ltn", 3));
    assert_eq!(app.items[0], sample()[0]);
    assert_eq!(app.items[1], sample()[1]);
    assert_eq!(app.items[3], sample()[3]);
    assert_eq!(names(&app.filtered_items), vec!["List", "list"]);
}

#[test]
fn edited_entry_leaves_the_list_when_it_no_longer_passes() {
    let mut app = App::new(sample());
    app.set_filter_text("who");
    app.next();
    app.enter_edit_mode(0);
    app.input_backspace();
    app.input_backspace();
    app.input_backspace();
    type_into_form(&mut app, "users");
    app.save_command();
    assert_eq!(app.items[3].name, "users");
    assert!(app.filtered_items.is_empty());
    assert_eq!(app.state.selected(), None);
}

#[test]
fn edit_of_a_row_that_is_gone_changes_no_entry() {
    let mut app = App::new(sample());
    app.set_filter_text("li");
    app.enter_edit_mode(1);
    app.set_filter_text("who");
    type_into_form(&mut app, "x");
    app.save_command();
    assert_eq!(app.items, sample());
    assert_eq!(app.popup, None);
}

#[test]
fn exit_edit_mode_turns_the_form_into_an_add_form() {
    let mut app = App::new(sample());
    app.enter_edit_mode(0);
    app.exit_edit_mode();
    let form = app.popup.as_ref().unwrap();
    assert_eq!(form.mode, PopupMode::Adding);
    assert_eq!(form.name_input, "List");
    app.save_command();
    assert_eq!(app.items.len(), 5);
    assert_eq!(app.items[4], entry("List", "List files", "ls -l", 5));
    assert_eq!(app.items[0], sample()[0]);
}

#[test]
fn cancel_discards_the_inputs() {
    let mut app = App::new(sample());
    app.enter_edit_mode(0);
    type_into_form(&mut app, "xyz");
    app.hide_add_popup();
    assert_eq!(app.popup, None);
    assert_eq!(app.items, sample());
    app.show_add_popup();
    assert_eq!(app.popup.as_ref().unwrap().name_input, "");
}

#[test]
fn confirmation_hands_over_the_command_text() {
    let mut app = App::new(vec![entry("ls", "", "ls -l", 1)]);
    app.set_filter_text("");
    app.state.select(Some(0));
    let signal = app.confirm_selection();
    assert_eq!(signal, LoopSignal::SaveAndExit);
    assert_eq!(app.selected_command_to_execute, Some("ls -l".to_string()));
}

#[test]
fn confirmation_takes_the_row_of_the_filtered_list() {
    let mut app = App::new(sample());
    app.set_filter_text("li");
    app.next();
    app.next();
    assert_eq!(app.confirm_selection(), LoopSignal::SaveAndExit);
    assert_eq!(app.selected_command_to_execute, Some("ss -ltn".to_string()));
}

#[test]
fn confirmation_without_a_cursor_is_a_no_op() {
    let mut app = App::new(sample());
    assert_eq!(app.confirm_selection(), LoopSignal::Continue);
    assert_eq!(app.selected_command_to_execute, None);
    assert_eq!(app.items, sample());
}

#[test]
fn confirmation_with_a_cursor_past_the_list_ends_without_a_command() {
    let mut app = App::new(sample());
    app.state.select(Some(9));
    assert_eq!(app.confirm_selection(), LoopSignal::Exit);
    assert_eq!(app.selected_command_to_execute, None);
}

#[test]
fn quit_ends_without_a_command_whatever_is_selected() {
    let mut app = App::new(sample());
    app.next();
    assert_eq!(app.quit(), LoopSignal::SaveAndExit);
    assert_eq!(app.selected_command_to_execute, None);
    assert_eq!(app.state.selected(), Some(0));
}

#[test]
fn update_filtered_items_repairs_a_stale_list() {
    let mut app = App::new(sample());
    app.filter_text = "disk".to_string();
    app.state.select(Some(3));
    app.update_filtered_items();
    assert_eq!(names(&app.filtered_items), vec!["Disk"]);
    assert_eq!(app.state.selected(), Some(0));
}

#[test]
fn builtin_entry_is_the_list_files_command() {
    assert_eq!(BashCmd::builtin(), entry("ls", "List files", "ls -l", 1));
    assert_eq!(BashCmd::builtin().clone(), BashCmd::builtin());
}
