use line_ed::editor::{Action, Editor, Mode};
use line_ed::errors::EdError;

fn chars(s: &str) -> Vec<char> {
    s.chars().collect()
}

fn strings(lines: &[&str]) -> Vec<String> {
    lines.iter().map(|l| l.to_string()).collect()
}

fn loaded(lines: &[&str]) -> Editor {
    let mut ed = Editor::blank();
    ed.load(strings(lines), chars("file.txt"));
    ed
}

fn run(ed: &mut Editor, line: &str) -> Result<Action, EdError> {
    ed.interpret(line.to_string())
}

fn printed(r: Result<Action, EdError>) -> String {
    match r.unwrap() {
        Action::Print(s) => s,
        other => panic!("expected a print action, got {:?}", other),
    }
}

#[test]
fn load_puts_cursor_on_last_line() {
    let ed = loaded(&["a", "b"]);
    assert_eq!(ed.lines, strings(&["a", "b"]));
    assert_eq!(ed.current_address, 2);
    assert_eq!(ed.default_filename, Some(chars("file.txt")));
    assert_eq!(ed.mode, Mode::Command);
}

#[test]
fn load_of_empty_file_puts_cursor_at_first_position() {
    let mut ed = loaded(&["a"]);
    ed.load(strings(&[]), chars("empty.txt"));
    assert_eq!(ed.lines, strings(&[]));
    assert_eq!(ed.current_address, 1);
    assert_eq!(run(&mut ed, "a"), Err(EdError::OutOfBoundsAddress));
}

#[test]
fn single_number_prints_nth_line() {
    let mut ed = loaded(&["a", "b", "c"]);
    assert_eq!(printed(run(&mut ed, "1p")), "a");
    assert_eq!(printed(run(&mut ed, "2p")), "b");
    assert_eq!(printed(run(&mut ed, "3p")), "c");
}

#[test]
fn print_range_joins_with_newlines_and_moves_cursor() {
    let mut ed = loaded(&["a", "b", "c"]);
    assert_eq!(printed(run(&mut ed, "1,2p")), "a\nb");
    assert_eq!(ed.current_address, 3);
}

#[test]
fn dollar_prints_last_line() {
    let mut ed = loaded(&["a", "b", "c"]);
    assert_eq!(printed(run(&mut ed, "$")), "c");
    assert_eq!(ed.current_address, 4);
}

#[test]
fn print_on_empty_buffer_is_rejected_not_a_no_op() {
    let mut ed = Editor::blank();
    assert_eq!(run(&mut ed, "p"), Err(EdError::OutOfBoundsAddress));
    assert_eq!(run(&mut ed, "$"), Err(EdError::OutOfBoundsAddress));
    assert_eq!(ed.lines, strings(&[]));
    assert_eq!(ed.current_address, 1);
    assert_eq!(ed.mode, Mode::Command);
}

#[test]
fn out_of_bounds_keeps_accepting_commands() {
    let mut ed = Editor::blank();
    assert_eq!(run(&mut ed, "p"), Err(EdError::OutOfBoundsAddress));
    match run(&mut ed, "e other.txt").unwrap() {
        Action::LoadFile { path } => assert_eq!(path, chars("other.txt")),
        other => panic!("expected a load action, got {:?}", other),
    }
}

#[test]
fn write_whole_buffer_appends_final_newline() {
    let mut ed = loaded(&["a", "b", "c"]);
    match run(&mut ed, "w").unwrap() {
        Action::WriteFile { path, contents } => {
            assert_eq!(path, chars("file.txt"));
            assert_eq!(contents, "a\nb\nc\n");
        }
        other => panic!("expected a write action, got {:?}", other),
    }
}

#[test]
fn write_keeps_existing_final_newline() {
    let mut ed = Editor {
        lines: strings(&["a\n"]),
        current_address: 1,
        default_filename: Some(chars("file.txt")),
        mode: Mode::Command,
    };
    match run(&mut ed, "w").unwrap() {
        Action::WriteFile { contents, .. } => assert_eq!(contents, "a\n"),
        other => panic!("expected a write action, got {:?}", other),
    }
}

#[test]
fn write_addressed_range() {
    let mut ed = loaded(&["a", "b", "c"]);
    match run(&mut ed, "2,3w out.txt").unwrap() {
        Action::WriteFile { path, contents } => {
            assert_eq!(path, chars("out.txt"));
            assert_eq!(contents, "b\nc\n");
        }
        other => panic!("expected a write action, got {:?}", other),
    }
}

#[test]
fn write_without_any_path_is_rejected() {
    let mut ed = Editor {
        lines: strings(&["a"]),
        current_address: 1,
        default_filename: None,
        mode: Mode::Command,
    };
    assert_eq!(run(&mut ed, "w"), Err(EdError::MissingWritePath));
}

#[test]
fn note_written_sets_default_path() {
    let mut ed = Editor {
        lines: strings(&["a"]),
        current_address: 1,
        default_filename: None,
        mode: Mode::Command,
    };
    ed.note_written(chars("saved.txt"));
    match run(&mut ed, "w").unwrap() {
        Action::WriteFile { path, .. } => assert_eq!(path, chars("saved.txt")),
        other => panic!("expected a write action, got {:?}", other),
    }
}

#[test]
fn print_whole_buffer_twice_is_identical() {
    let mut ed = loaded(&["a", "b", "c"]);
    let first = printed(run(&mut ed, "1,$p"));
    assert_eq!(ed.current_address, 4);
    let second = printed(run(&mut ed, "1,$p"));
    assert_eq!(ed.current_address, 4);
    assert_eq!(first, second);
    assert_eq!(first, "a\nb\nc");
}

#[test]
fn append_with_explicit_address_inserts_after_it() {
    let mut ed = loaded(&["a", "b"]);
    assert!(matches!(run(&mut ed, "2a").unwrap(), Action::Silent));
    assert_eq!(ed.mode, Mode::Insert);
    assert_eq!(ed.current_address, 3);
    assert!(matches!(run(&mut ed, "x").unwrap(), Action::Silent));
    assert_eq!(ed.lines, strings(&["a", "b", "x"]));
    assert_eq!(ed.current_address, 4);
    assert!(matches!(run(&mut ed, ".").unwrap(), Action::Silent));
    assert_eq!(ed.mode, Mode::Command);
    assert_eq!(ed.lines, strings(&["a", "b", "x"]));
    assert_eq!(ed.current_address, 3);
}

#[test]
fn bare_append_after_load_appends_at_end() {
    // Right after a load the cursor sits on the last line, so a bare
    // append addresses it and new lines go after it.
    let mut ed = loaded(&["a", "b"]);
    assert_eq!(ed.current_address, 2);
    assert!(matches!(run(&mut ed, "a").unwrap(), Action::Silent));
    assert_eq!(ed.mode, Mode::Insert);
    assert_eq!(ed.current_address, 3);
    assert!(matches!(run(&mut ed, "x").unwrap(), Action::Silent));
    assert!(matches!(run(&mut ed, ".").unwrap(), Action::Silent));
    assert_eq!(ed.lines, strings(&["a", "b", "x"]));
    assert_eq!(ed.mode, Mode::Command);
    assert_eq!(ed.current_address, 3);
    // The cursor rests on the just-inserted line, so printing it works.
    assert_eq!(printed(run(&mut ed, "p")), "x");
}

#[test]
fn change_replaces_addressed_line() {
    let mut ed = loaded(&["a", "b", "c"]);
    assert!(matches!(run(&mut ed, "2c").unwrap(), Action::Silent));
    assert_eq!(ed.lines, strings(&["a", "c"]));
    assert_eq!(ed.current_address, 2);
    assert_eq!(ed.mode, Mode::Insert);
    assert!(matches!(run(&mut ed, "B").unwrap(), Action::Silent));
    assert!(matches!(run(&mut ed, ".").unwrap(), Action::Silent));
    assert_eq!(ed.lines, strings(&["a", "B", "c"]));
    assert_eq!(ed.mode, Mode::Command);
    assert_eq!(ed.current_address, 2);
}

#[test]
fn insert_verb_inserts_before_addressed_line() {
    let mut ed = loaded(&["a", "b"]);
    assert!(matches!(run(&mut ed, "2i").unwrap(), Action::Silent));
    assert_eq!(ed.current_address, 2);
    assert_eq!(ed.mode, Mode::Insert);
    assert!(matches!(run(&mut ed, "X").unwrap(), Action::Silent));
    assert!(matches!(run(&mut ed, ".").unwrap(), Action::Silent));
    assert_eq!(ed.lines, strings(&["a", "X", "b"]));
    assert_eq!(ed.current_address, 2);
}

#[test]
fn delete_range_removes_lines_and_sets_cursor() {
    let mut ed = loaded(&["a", "b", "c"]);
    assert!(matches!(run(&mut ed, "1,2d").unwrap(), Action::Silent));
    assert_eq!(ed.lines, strings(&["c"]));
    assert_eq!(ed.current_address, 1);
    assert_eq!(ed.mode, Mode::Command);
}

#[test]
fn reversed_range_is_rejected_deterministically() {
    let mut ed = loaded(&["1", "2", "3", "4", "5"]);
    assert_eq!(run(&mut ed, "3,1p"), Err(EdError::OutOfBoundsAddress));
    assert_eq!(ed.lines, strings(&["1", "2", "3", "4", "5"]));
    assert_eq!(ed.current_address, 5);
    assert_eq!(ed.mode, Mode::Command);
}

#[test]
fn out_of_range_addresses_are_rejected() {
    let mut ed = loaded(&["a", "b"]);
    assert_eq!(run(&mut ed, "0p"), Err(EdError::OutOfBoundsAddress));
    assert_eq!(run(&mut ed, "3p"), Err(EdError::OutOfBoundsAddress));
    assert_eq!(run(&mut ed, "1,3p"), Err(EdError::OutOfBoundsAddress));
}

#[test]
fn bare_command_prints_next_line() {
    let mut ed = loaded(&["a", "b", "c"]);
    assert_eq!(printed(run(&mut ed, "1p")), "a");
    assert_eq!(ed.current_address, 2);
    assert_eq!(printed(run(&mut ed, "")), "c");
    assert_eq!(ed.current_address, 4);
    assert_eq!(run(&mut ed, ""), Err(EdError::OutOfBoundsAddress));
}

#[test]
fn edit_prefers_explicit_path_and_keeps_state_until_load() {
    let mut ed = loaded(&["a"]);
    match run(&mut ed, "e other.txt").unwrap() {
        Action::LoadFile { path } => assert_eq!(path, chars("other.txt")),
        other => panic!("expected a load action, got {:?}", other),
    }
    // Nothing committed yet: the old buffer and path are still live.
    assert_eq!(ed.lines, strings(&["a"]));
    assert_eq!(ed.default_filename, Some(chars("file.txt")));
}

#[test]
fn edit_falls_back_to_remembered_path() {
    let mut ed = loaded(&["a"]);
    match run(&mut ed, "e").unwrap() {
        Action::LoadFile { path } => assert_eq!(path, chars("file.txt")),
        other => panic!("expected a load action, got {:?}", other),
    }
}

#[test]
fn edit_without_any_path_is_rejected() {
    let mut ed = Editor::blank();
    assert_eq!(run(&mut ed, "e"), Err(EdError::MissingFilePath));
}

#[test]
fn load_commits_fresh_state() {
    let mut ed = loaded(&["a"]);
    ed.load(strings(&["x", "y"]), chars("other.txt"));
    assert_eq!(ed.lines, strings(&["x", "y"]));
    assert_eq!(ed.current_address, 2);
    assert_eq!(ed.default_filename, Some(chars("other.txt")));
    assert_eq!(ed.mode, Mode::Command);
}

#[test]
fn syntax_error_leaves_state_unchanged() {
    let mut ed = loaded(&["a", "b"]);
    assert_eq!(run(&mut ed, "zz"), Err(EdError::UnknownCommand));
    assert_eq!(ed.lines, strings(&["a", "b"]));
    assert_eq!(ed.current_address, 2);
    assert_eq!(ed.mode, Mode::Command);
}

#[test]
fn insert_mode_takes_lines_verbatim() {
    let mut ed = loaded(&["a", "b"]);
    assert!(matches!(run(&mut ed, "1a").unwrap(), Action::Silent));
    assert!(matches!(run(&mut ed, "1,2p").unwrap(), Action::Silent));
    assert_eq!(ed.lines, strings(&["a", "1,2p", "b"]));
    assert!(matches!(run(&mut ed, ".").unwrap(), Action::Silent));
    assert_eq!(ed.mode, Mode::Command);
}
