use command_catalog::app::BashCmd;
use command_catalog::cli::{
    clean_answer, command_from_args, describe, entry_to_save, is_yes, DESCRIBED_INDEX,
};
use command_catalog::commands::format_command_line;
use command_catalog::execute::{
    find_word_end, launch_of_words, plan_launch, split_at_marks, split_words, Launch,
    NO_COMMAND_MESSAGE,
};

fn strings(words: &[&str]) -> Vec<String> {
    words.iter().map(|w| w.to_string()).collect()
}

fn chars(s: &str) -> Vec<char> {
    s.chars().collect()
}

#[test]
fn words_are_split_at_white_space() {
    assert_eq!(split_words("ls -l /tmp"), strings(&["ls", "-l", "/tmp"]));
    assert_eq!(split_words("ls"), strings(&["ls"]));
}

#[test]
fn runs_of_white_space_leave_no_empty_word() {
    assert_eq!(split_words("  ls \t -l\n\n/tmp  "), strings(&["ls", "-l", "/tmp"]));
    assert_eq!(split_words("a\u{a0}b\u{3000}c"), strings(&["a", "b", "c"]));
}

#[test]
fn text_without_a_word_splits_to_nothing() {
    assert!(split_words("").is_empty());
    assert!(split_words(" \t\n ").is_empty());
}

#[test]
fn quotes_are_not_special() {
    assert_eq!(split_words("echo 'a b'"), strings(&["echo", "'a", "b'"]));
}

#[test]
fn word_ends_at_the_next_mark() {
    let marks = [false, false, true, false, false];
    assert_eq!(find_word_end(&marks, 0), 2);
    assert_eq!(find_word_end(&marks, 1), 2);
    assert_eq!(find_word_end(&marks, 2), 2);
    assert_eq!(find_word_end(&marks, 3), 5);
    assert_eq!(find_word_end(&marks, 5), 5);
}

#[test]
fn marked_characters_separate_the_words() {
    let text = chars("ls,-l,,/tmp,");
    let marks: Vec<bool> = text.iter().map(|c| *c == ',').collect();
    assert_eq!(split_at_marks(&text, &marks), strings(&["ls", "-l", "/tmp"]));
    assert_eq!(split_at_marks(&chars("ab"), &[false, false]), strings(&["ab"]));
    assert_eq!(split_at_marks(&chars("ab"), &[true, true]), Vec::<String>::new());
    assert_eq!(split_at_marks(&chars("ab"), &[false, true]), strings(&["a"]));
    assert_eq!(split_at_marks(&[], &[]), Vec::<String>::new());
}

#[test]
fn first_word_is_the_program_and_the_rest_its_arguments() {
    assert_eq!(
        launch_of_words(strings(&["ls", "-l", "/tmp"])),
        Launch::Run { program: "ls".to_string(), args: strings(&["-l", "/tmp"]) }
    );
    assert_eq!(
        launch_of_words(strings(&["top"])),
        Launch::Run { program: "top".to_string(), args: Vec::new() }
    );
    assert_eq!(launch_of_words(Vec::new()), Launch::NoCommand);
}

#[test]
fn launch_takes_the_first_word_as_the_program() {
    assert_eq!(
        plan_launch(Some("ls -l /tmp")),
        Launch::Run { program: "ls".to_string(), args: strings(&["-l", "/tmp"]) }
    );
    assert_eq!(
        plan_launch(Some("  top  ")),
        Launch::Run { program: "top".to_string(), args: Vec::new() }
    );
}

#[test]
fn launch_of_an_empty_command_reports_and_starts_nothing() {
    assert_eq!(plan_launch(Some("")), Launch::NoCommand);
    assert_eq!(plan_launch(Some("   \t")), Launch::NoCommand);
    assert_eq!(NO_COMMAND_MESSAGE, "No command provided");
}

#[test]
fn launch_without_a_command_does_nothing() {
    assert_eq!(plan_launch(None), Launch::Nothing);
}

#[test]
fn command_line_is_the_arguments_after_the_program_name() {
    assert_eq!(command_from_args(&strings(&["prog", "ls", "-l", "/tmp"])), "ls -l /tmp");
    assert_eq!(command_from_args(&strings(&["prog", "top"])), "top");
    assert_eq!(command_from_args(&strings(&["prog"])), "");
    assert_eq!(command_from_args(&strings(&["prog", "a b", "", "c"])), "a b  c");
}

#[test]
fn answers_are_cleaned_of_surrounding_white_space() {
    assert_eq!(clean_answer("  my name \n"), "my name");
    assert_eq!(clean_answer("y\r\n"), "y");
    assert_eq!(clean_answer("\n"), "");
}

#[test]
fn only_y_in_either_case_confirms() {
    assert!(is_yes("y"));
    assert!(is_yes("Y"));
    assert!(!is_yes("yes"));
    assert!(!is_yes("n"));
    assert!(!is_yes(""));
    assert!(!is_yes(" y"));
}

#[test]
fn described_entry_carries_the_fixed_position_number() {
    let entry = describe("up".to_string(), "Uptime".to_string(), "uptime -p".to_string());
    assert_eq!(
        entry,
        BashCmd {
            name: "up".to_string(),
            desc: "Uptime".to_string(),
            command: "uptime -p".to_string(),
            index: 100,
            category: 1,
            favourite: false,
        }
    );
    assert_eq!(DESCRIBED_INDEX, 100);
}

#[test]
fn entry_is_saved_only_on_confirmation() {
    let saved = entry_to_save("up".to_string(), "Uptime".to_string(), "uptime".to_string(), "Y");
    assert_eq!(
        saved,
        Some(describe("up".to_string(), "Uptime".to_string(), "uptime".to_string()))
    );
    assert_eq!(
        entry_to_save("up".to_string(), "Uptime".to_string(), "uptime".to_string(), "n"),
        None
    );
    assert_eq!(
        entry_to_save("up".to_string(), "Uptime".to_string(), "uptime".to_string(), ""),
        None
    );
}

#[test]
fn described_entry_is_stored_as_one_line() {
    let command = command_from_args(&strings(&["prog", "uptime", "-p"]));
    let saved = entry_to_save("up".to_string(), "Uptime".to_string(), command, "y").unwrap();
    assert_eq!(format_command_line(&saved), "up※Uptime※uptime -p");
}
