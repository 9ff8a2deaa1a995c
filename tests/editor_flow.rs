use textedit::common::{Event, Key, MouseButton, MouseEvent, Position, Size, Task};
use textedit::config::{Config, General};
use textedit::editor::{Action, Editor};

fn key(k: Key) -> Event {
    Event::Key(k)
}

fn type_text(e: &mut Editor, text: &str) {
    for ch in text.chars() {
        assert_eq!(e.handle_event(key(Key::Char(ch))), Action::Continue);
    }
}

#[test]
fn config_defaults() {
    let g = General::new();
    assert_eq!(g.line_number_padding_left, 2);
    assert_eq!(g.line_number_padding_right, 3);
    assert_eq!(g.file_tree_width, 18);
    assert_eq!(Config::new().general, g);
}

#[test]
fn editor_starts_with_one_untitled_document() {
    let e = Editor::new(Config::new(), None, None);
    assert_eq!(e.docs.len(), 1);
    assert_eq!(e.active_doc, 0);
    assert!(!e.status_input_active);
    assert_eq!(e.docs[0].command_status, "Untitled file");
}

#[test]
fn editor_opens_given_file() {
    let e = Editor::new(Config::new(), Some("a.txt".to_string()), Some("x\ny".to_string()));
    assert_eq!(e.docs[0].lines, vec!["x".to_string(), "y".to_string()]);
    assert_eq!(e.docs[0].file_path, Some("a.txt".to_string()));
    assert_eq!(e.docs[0].command_status, "File loaded successfully");
}

#[test]
fn editor_names_new_document_after_missing_file() {
    let e = Editor::new(Config::new(), Some("new.txt".to_string()), None);
    assert_eq!(e.docs[0].lines, vec!["".to_string()]);
    assert_eq!(e.docs[0].file_path, Some("new.txt".to_string()));
    assert_eq!(e.docs[0].command_status, "New named doc created");
}

#[test]
fn ctrl_s_on_untitled_asks_then_saves_to_given_path() {
    let mut e = Editor::new(Config::new(), None, None);
    type_text(&mut e, "hi");
    let t = e.process_key_event(Key::Ctrl('s'));
    assert_eq!(t, Task::AskInput("File path".to_string()));
    assert_eq!(e.process_task(t), Action::Continue);
    assert!(e.status_input_active);
    type_text(&mut e, "/tmp/x.txt");
    let a = e.handle_event(key(Key::Char('\n')));
    assert_eq!(a, Action::Write("/tmp/x.txt".to_string(), "hi\n".to_string()));
    assert!(!e.status_input_active);
    assert_eq!(e.finish_save("/tmp/x.txt".to_string(), Ok(())), Action::Continue);
    assert!(e.docs[0].command_status.contains("/tmp/x.txt"));
    assert_eq!(e.status_line.render(), "File saved: /tmp/x.txt");
    assert_eq!(e.docs[0].file_path, Some("/tmp/x.txt".to_string()));
}

#[test]
fn failed_save_is_reported_on_document() {
    let mut e = Editor::new(Config::new(), Some("a.txt".to_string()), Some("abc".to_string()));
    let a = e.handle_event(key(Key::Ctrl('s')));
    assert_eq!(a, Action::Write("a.txt".to_string(), "abc\n".to_string()));
    e.finish_save("a.txt".to_string(), Err("disk full".to_string()));
    assert_eq!(e.docs[0].command_status, "Unable to save file: disk full");
    assert_eq!(e.docs[0].lines, vec!["abc".to_string()]);
}

#[test]
fn escape_cancels_input() {
    let mut e = Editor::new(Config::new(), None, None);
    e.handle_event(key(Key::Ctrl('o')));
    assert!(e.status_input_active);
    type_text(&mut e, "zz");
    assert_eq!(e.process_key_event(Key::Esc), Task::SetCommand("Cancelled".to_string()));
    assert!(!e.status_input_active);
    assert_eq!(e.docs[0].lines, vec!["".to_string()]);
}

#[test]
fn keys_while_collecting_do_not_edit_document() {
    let mut e = Editor::new(Config::new(), None, None);
    e.handle_event(key(Key::Ctrl('s')));
    type_text(&mut e, "p");
    e.handle_event(key(Key::Backspace));
    e.handle_event(key(Key::Ctrl('l')));
    assert_eq!(e.docs[0].lines, vec!["".to_string()]);
    assert_eq!(e.status_line.render(), "File path: ");
    assert_eq!(e.active_doc, 0);
}

#[test]
fn next_tab_wraps_around() {
    let mut e = Editor::new(Config::new(), None, None);
    assert_eq!(e.handle_event(key(Key::Ctrl('n'))), Action::Continue);
    assert_eq!(e.docs.len(), 2);
    assert_eq!(e.active_doc, 1);
    e.process_task(Task::PrevTab);
    assert_eq!(e.active_doc, 0);
    e.handle_event(key(Key::Ctrl('l')));
    assert_eq!(e.active_doc, 1);
    e.handle_event(key(Key::Ctrl('l')));
    assert_eq!(e.active_doc, 0);
}

#[test]
fn prev_tab_wraps_around() {
    let mut e = Editor::new(Config::new(), None, None);
    e.handle_event(key(Key::Ctrl('n')));
    e.handle_event(key(Key::Ctrl('n')));
    e.process_task(Task::NextTab);
    assert_eq!(e.active_doc, 0);
    e.handle_event(key(Key::Ctrl('k')));
    assert_eq!(e.active_doc, 2);
    e.handle_event(key(Key::Ctrl('k')));
    assert_eq!(e.active_doc, 1);
}

#[test]
fn close_tab_focuses_previous() {
    let mut e = Editor::new(Config::new(), Some("a".to_string()), Some("A".to_string()));
    e.handle_event(key(Key::Ctrl('n')));
    type_text(&mut e, "B");
    e.handle_event(key(Key::Ctrl('w')));
    assert_eq!(e.docs.len(), 1);
    assert_eq!(e.active_doc, 0);
    assert_eq!(e.docs[0].lines, vec!["A".to_string()]);
}

#[test]
fn closing_last_tab_is_refused() {
    let mut e = Editor::new(Config::new(), None, None);
    assert_eq!(e.handle_event(key(Key::Ctrl('w'))), Action::Continue);
    assert_eq!(e.docs.len(), 1);
    assert_eq!(e.docs[0].command_status, "Can't close the last tab");
}

#[test]
fn open_document_adds_tab_or_reports_missing_file() {
    let mut e = Editor::new(Config::new(), None, None);
    e.handle_event(key(Key::Ctrl('o')));
    type_text(&mut e, "b.txt");
    let a = e.handle_event(key(Key::Char('\n')));
    assert_eq!(a, Action::Read("b.txt".to_string()));
    e.open_document("b.txt".to_string(), Some("bee".to_string()));
    assert_eq!(e.docs.len(), 2);
    assert_eq!(e.active_doc, 1);
    assert_eq!(e.docs[1].lines, vec!["bee".to_string()]);
    e.open_document("c.txt".to_string(), None);
    assert_eq!(e.docs.len(), 2);
    assert_eq!(e.docs[1].command_status, "File not found: c.txt");
}

#[test]
fn quit_and_unsupported_events() {
    let mut e = Editor::new(Config::new(), None, None);
    assert_eq!(e.handle_event(key(Key::Ctrl('q'))), Action::Quit);
    assert_eq!(e.handle_event(Event::Unsupported), Action::Continue);
    e.handle_event(key(Key::Ctrl('s')));
    assert_eq!(e.handle_event(key(Key::Ctrl('q'))), Action::Quit);
}

#[test]
fn mouse_wheel_scrolls_active_document() {
    let mut e = Editor::new(Config::new(), Some("a".to_string()), Some("1\n2\n3".to_string()));
    let t = e.process_mouse_event(MouseEvent::Press(MouseButton::WheelDown));
    assert_eq!(t, Task::Nothing);
    assert_eq!(e.docs[0].cursor_pos, Position { row: 1, col: 0 });
    e.handle_event(Event::Mouse(MouseEvent::Press(MouseButton::WheelUp)));
    assert_eq!(e.docs[0].cursor_pos, Position { row: 0, col: 0 });
}

#[test]
fn frame_has_header_body_status_and_input_rows() {
    let mut e = Editor::new(Config::new(), Some("dir/a.txt".to_string()), Some("hello".to_string()));
    let frame = e.render(&Size { height: 6, width: 20 });
    let rows: Vec<&str> = frame.split("\r\n").collect();
    assert_eq!(rows.len(), 6);
    assert_eq!(rows[0], " a.txt |");
    assert_eq!(rows[1], "\x1b[38;5;2m1\x1b[m   hello");
    assert_eq!(rows[2], "~");
    assert_eq!(rows[3], "~");
    assert_eq!(rows[4], format!("{}1/1 | 0", " ".repeat(20 - 7 - 1)));
    assert_eq!(rows[5], "File loaded successfully");
    assert_eq!(e.cursor_pos, Position { row: 2, col: 5 });
}

#[test]
fn header_marks_inactive_tabs_faint() {
    let mut e = Editor::new(Config::new(), Some("a.txt".to_string()), Some("".to_string()));
    e.handle_event(key(Key::Ctrl('n')));
    assert_eq!(e.render_doc_tabs(), " \x1b[2ma.txt |\x1b[m [No name] |");
    assert_eq!(e.render_header(), e.render_doc_tabs());
}

#[test]
fn cursor_goes_to_input_line_while_collecting() {
    let mut e = Editor::new(Config::new(), None, None);
    e.handle_event(key(Key::Ctrl('o')));
    type_text(&mut e, "ab");
    let frame = e.render(&Size { height: 10, width: 30 });
    assert!(frame.ends_with("Doc path: ab"));
    assert_eq!(e.cursor_pos, Position { row: 10, col: 8 + 2 + 2 + 1 });
}

#[test]
fn status_row_follows_cursor() {
    let mut e = Editor::new(Config::new(), None, None);
    type_text(&mut e, "ab\ncd");
    let row = e.render_status_line(&Size { height: 10, width: 12 });
    assert_eq!(row, "    2/2 | 2");
}

#[test]
fn render_doc_pads_with_filler() {
    let mut e = Editor::new(Config::new(), None, None);
    let frame = e.render_doc(Size { height: 3, width: 10 });
    assert_eq!(frame.len(), 3);
    assert_eq!(frame[1], "~");
    assert_eq!(frame[2], "~");
}

#[test]
fn tiny_terminal_renders_without_document_rows() {
    let mut e = Editor::new(Config::new(), None, None);
    let frame = e.render(&Size { height: 2, width: 3 });
    let rows: Vec<&str> = frame.split("\r\n").collect();
    assert_eq!(rows.len(), 3);
    assert_eq!(rows[1], "1/1 | 0");
}

#[test]
fn command_line_shows_document_status_when_idle() {
    let mut e = Editor::new(Config::new(), None, None);
    e.process_set_command("hello".to_string());
    assert_eq!(e.render_command_line(), "Untitled file");
}

#[test]
fn join_rows_separates_with_crlf() {
    let rows = vec!["a".to_string(), "".to_string(), "b".to_string()];
    assert_eq!(textedit::editor::join_rows(&rows), "a\r\n\r\nb");
    assert_eq!(textedit::editor::join_rows(&Vec::new()), "");
}
