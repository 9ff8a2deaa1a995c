use textedit::common::{Key, MouseButton, MouseEvent, Position, Task};
use textedit::doc::{Doc, TaskPending};

fn doc_of(contents: &str) -> Doc {
    Doc::open("notes.txt".to_string(), Some(contents.to_string())).unwrap()
}

fn at(d: &mut Doc, row: usize, col: usize) {
    d.cursor_pos = Position { row, col };
}

fn assert_cursor_valid(d: &Doc) {
    assert!(!d.lines.is_empty());
    assert!(d.cursor_pos.row < d.lines.len());
    assert!(d.cursor_pos.col <= d.lines[d.cursor_pos.row].chars().count());
}

#[test]
fn typing_into_new_document() {
    let mut d = Doc::new();
    assert_eq!(d.process_key(&Key::Char('h')), Task::Nothing);
    assert_eq!(d.process_key(&Key::Char('i')), Task::Nothing);
    assert_eq!(d.lines, vec!["hi".to_string()]);
    assert_eq!(d.cursor_pos, Position { row: 0, col: 2 });
}

#[test]
fn enter_at_end_of_line_splits_off_empty_line() {
    let mut d = doc_of("ab\ncd");
    at(&mut d, 0, 2);
    d.process_key(&Key::Char('\n'));
    assert_eq!(d.lines, vec!["ab".to_string(), "".to_string(), "cd".to_string()]);
    assert_eq!(d.cursor_pos, Position { row: 1, col: 0 });
}

#[test]
fn enter_in_middle_of_line_splits_it() {
    let mut d = doc_of("abcd");
    at(&mut d, 0, 1);
    d.write_char('\n');
    assert_eq!(d.lines, vec!["a".to_string(), "bcd".to_string()]);
    assert_eq!(d.cursor_pos, Position { row: 1, col: 0 });
}

#[test]
fn backspace_at_line_start_joins_lines() {
    let mut d = doc_of("a\nb");
    at(&mut d, 1, 0);
    assert_eq!(d.process_key(&Key::Backspace), Task::Nothing);
    assert_eq!(d.lines, vec!["ab".to_string()]);
    assert_eq!(d.cursor_pos, Position { row: 0, col: 1 });
}

#[test]
fn backspace_deletes_previous_char() {
    let mut d = doc_of("abc");
    at(&mut d, 0, 2);
    d.handle_backspace();
    assert_eq!(d.lines, vec!["ac".to_string()]);
    assert_eq!(d.cursor_pos, Position { row: 0, col: 1 });
}

#[test]
fn backspace_at_document_start_does_nothing() {
    let mut d = doc_of("abc\nd");
    d.handle_backspace();
    assert_eq!(d.lines, vec!["abc".to_string(), "d".to_string()]);
    assert_eq!(d.cursor_pos, Position { row: 0, col: 0 });
}

#[test]
fn split_then_backspace_restores_line() {
    for col in 0..=5 {
        let mut d = doc_of("first\nhello\nlast");
        at(&mut d, 1, col);
        d.write_char('\n');
        d.handle_backspace();
        assert_eq!(d.lines, vec!["first".to_string(), "hello".to_string(), "last".to_string()]);
        assert_eq!(d.cursor_pos, Position { row: 1, col });
    }
}

#[test]
fn horizontal_moves_wrap_between_lines() {
    let mut d = doc_of("ab\ncde");
    at(&mut d, 1, 0);
    d.col_left();
    assert_eq!(d.cursor_pos, Position { row: 0, col: 2 });
    d.col_right();
    assert_eq!(d.cursor_pos, Position { row: 1, col: 0 });
    at(&mut d, 1, 3);
    d.col_right();
    assert_eq!(d.cursor_pos, Position { row: 1, col: 3 });
    at(&mut d, 0, 0);
    d.col_left();
    assert_eq!(d.cursor_pos, Position { row: 0, col: 0 });
}

#[test]
fn vertical_moves_clamp_column_without_memory() {
    let mut d = doc_of("long line\nab\nanother long");
    at(&mut d, 0, 7);
    d.row_down();
    assert_eq!(d.cursor_pos, Position { row: 1, col: 2 });
    d.row_down();
    assert_eq!(d.cursor_pos, Position { row: 2, col: 2 });
    d.row_down();
    assert_eq!(d.cursor_pos, Position { row: 2, col: 2 });
    d.row_up();
    d.row_up();
    assert_eq!(d.cursor_pos, Position { row: 0, col: 2 });
    d.row_up();
    assert_eq!(d.cursor_pos, Position { row: 0, col: 2 });
}

#[test]
fn every_key_keeps_cursor_inside_lines() {
    let mut d = doc_of("abc\n\nxy\r\nz");
    let keys = [
        Key::Down, Key::Down, Key::Right, Key::Right, Key::Right, Key::Backspace, Key::Backspace,
        Key::Char('\n'), Key::Up, Key::Left, Key::Char('q'), Key::Backspace, Key::Backspace,
        Key::Backspace, Key::Backspace, Key::Down, Key::Down, Key::Down, Key::Right, Key::Char('\n'),
        Key::Char('\n'), Key::Backspace, Key::Up, Key::Up, Key::Up, Key::Up, Key::Left,
    ];
    for k in keys.iter() {
        d.process_key(k);
        assert_cursor_valid(&d);
        assert!(d.lines.iter().all(|l| !l.contains('\n')));
    }
}

#[test]
fn split_file_handles_both_line_endings() {
    assert_eq!(Doc::split_file("a\nb\r\nc"), vec!["a", "b", "c"]);
    assert_eq!(Doc::split_file(""), vec![""]);
    assert_eq!(Doc::split_file("x\n"), vec!["x", ""]);
    assert_eq!(Doc::split_file("a\r\r\nb\r"), vec!["a\r", "b\r"]);
    assert_eq!(Doc::split_file("\n\n"), vec!["", "", ""]);
}

#[test]
fn open_reads_lines_and_resets_position() {
    let d = doc_of("one\r\ntwo");
    assert_eq!(d.lines, vec!["one".to_string(), "two".to_string()]);
    assert_eq!(d.cursor_pos, Position { row: 0, col: 0 });
    assert_eq!(d.offset, Position { row: 0, col: 0 });
    assert_eq!(d.file_path, Some("notes.txt".to_string()));
    assert_eq!(d.command_status, "File loaded successfully");
    assert!(Doc::open("missing.txt".to_string(), None).is_none());
}

#[test]
fn open_of_empty_file_has_one_empty_line() {
    let d = doc_of("");
    assert_eq!(d.lines, vec!["".to_string()]);
}

#[test]
fn content_ends_every_line_with_newline() {
    let d = doc_of("ab\r\ncd");
    assert_eq!(d.get_doc_content(), "ab\ncd\n");
    assert_eq!(Doc::new().get_doc_content(), "\n");
}

#[test]
fn save_then_reopen_gives_lines_and_trailing_empty_line() {
    let mut d = Doc::new();
    for ch in "one\ntwo\n\nthree".chars() {
        d.write_char(ch);
    }
    let content = d.get_doc_content();
    let reopened = Doc::open("x".to_string(), Some(content)).unwrap();
    let mut expected = d.lines.clone();
    expected.push(String::new());
    assert_eq!(reopened.lines, expected);
}

#[test]
fn save_of_untitled_asks_for_path() {
    let mut d = Doc::new();
    assert_eq!(d.process_key(&Key::Ctrl('s')), Task::AskInput("File path".to_string()));
    assert_eq!(d.task_pending, TaskPending::SaveFile);
    let t = d.process_command_input("/tmp/x.txt".to_string());
    assert_eq!(t, Task::SaveFile("/tmp/x.txt".to_string()));
    assert_eq!(d.file_path, Some("/tmp/x.txt".to_string()));
    assert_eq!(d.task_pending, TaskPending::Nothing);
    let t = d.finish_save("/tmp/x.txt", Ok(()));
    assert_eq!(t, Task::SetCommand("File saved: /tmp/x.txt".to_string()));
    assert_eq!(d.command_status, "File saved: /tmp/x.txt");
}

#[test]
fn save_with_path_asks_editor_to_write() {
    let mut d = doc_of("x");
    assert_eq!(d.process_key(&Key::Ctrl('s')), Task::SaveFile("notes.txt".to_string()));
    assert_eq!(d.task_pending, TaskPending::Nothing);
}

#[test]
fn failed_save_sets_status_and_keeps_lines() {
    let mut d = doc_of("keep\nme");
    at(&mut d, 1, 1);
    let t = d.finish_save("notes.txt", Err("permission denied".to_string()));
    assert_eq!(t, Task::Nothing);
    assert_eq!(d.command_status, "Unable to save file: permission denied");
    assert_eq!(d.lines, vec!["keep".to_string(), "me".to_string()]);
    assert_eq!(d.cursor_pos, Position { row: 1, col: 1 });
}

#[test]
fn open_request_passes_path_on() {
    let mut d = Doc::new();
    assert_eq!(d.process_key(&Key::Ctrl('o')), Task::AskInput("Doc path".to_string()));
    assert_eq!(d.task_pending, TaskPending::OpenDoc);
    assert_eq!(d.process_command_input("b.txt".to_string()), Task::OpenDoc("b.txt".to_string()));
    assert_eq!(d.task_pending, TaskPending::Nothing);
    assert_eq!(d.file_path, None);
}

#[test]
fn control_keys_map_to_tasks() {
    let mut d = Doc::new();
    assert_eq!(d.process_key(&Key::Ctrl('n')), Task::NewDoc);
    assert_eq!(d.process_key(&Key::Ctrl('k')), Task::PrevTab);
    assert_eq!(d.process_key(&Key::Ctrl('l')), Task::NextTab);
    assert_eq!(d.process_key(&Key::Ctrl('w')), Task::CloseCurrentTab);
    assert_eq!(d.process_key(&Key::Ctrl('x')), Task::Nothing);
    assert_eq!(d.process_key(&Key::Other), Task::Nothing);
    assert_eq!(d.lines, vec!["".to_string()]);
}

#[test]
fn mouse_wheel_moves_cursor() {
    let mut d = doc_of("a\nb\nc");
    d.process_mouse_event(&MouseEvent::Press(MouseButton::WheelDown));
    assert_eq!(d.cursor_pos, Position { row: 1, col: 0 });
    d.process_mouse_event(&MouseEvent::Press(MouseButton::WheelUp));
    assert_eq!(d.cursor_pos, Position { row: 0, col: 0 });
    d.process_mouse_event(&MouseEvent::Press(MouseButton::Left));
    d.process_mouse_event(&MouseEvent::Release);
    assert_eq!(d.cursor_pos, Position { row: 0, col: 0 });
}

#[test]
fn titles_come_from_file_names() {
    let mut d = Doc::new();
    assert_eq!(d.get_title(), "[No name]");
    d.set_file_path("/home/user/notes.txt".to_string());
    assert_eq!(d.get_title(), "notes.txt");
    d.set_file_path("/".to_string());
    assert_eq!(d.get_title(), "/");
}

#[test]
fn new_document_is_untitled() {
    let d = Doc::new();
    assert_eq!(d.lines, vec!["".to_string()]);
    assert_eq!(d.command_status, "Untitled file");
    assert_eq!(d.file_path, None);
    assert!(d.can_close());
}

#[test]
fn line_number_width_counts_digits() {
    assert_eq!(Doc::new().get_line_number_length(), 1);
    assert_eq!(doc_of(&"x\n".repeat(9)).get_line_number_length(), 2);
    assert_eq!(doc_of(&"x\n".repeat(98)).get_line_number_length(), 2);
    assert_eq!(doc_of(&"x\n".repeat(99)).get_line_number_length(), 3);
}

#[test]
fn non_ascii_columns_count_characters() {
    let mut d = doc_of("né");
    at(&mut d, 0, 2);
    d.write_char('ü');
    assert_eq!(d.lines, vec!["néü".to_string()]);
    assert_eq!(d.cursor_pos, Position { row: 0, col: 3 });
    d.col_left();
    d.handle_backspace();
    assert_eq!(d.lines, vec!["nü".to_string()]);
    assert_eq!(d.cursor_pos, Position { row: 0, col: 1 });
}
