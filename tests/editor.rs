use hecto::{
    decimal_string, goto_coordinates, prefix_string, render_clusters, space_string, Document,
    Editor, Key, Position, Row, Size,
};

fn doc(lines: &[&str]) -> Document {
    let lines: Vec<String> = lines.iter().map(|l| l.to_string()).collect();
    Document::from_lines(&lines, Some("notes.txt".to_string()))
}

fn editor(lines: &[&str], width: u16, height: u16) -> Editor {
    Editor::new(doc(lines), Size { width, height }, "HELP: Ctrl-Q = quit".to_string())
}

#[test]
fn grapheme_len() {
    let s = "\u{e4}";
    let row = Row::from(s);
    assert_eq!(s.len(), 2);
    assert_eq!(row.len(), 1);
}

#[test]
fn combining_sequence_is_one_column() {
    let s = "a\u{308}";
    assert_eq!(s.chars().count(), 2);
    let row = Row::from(s);
    assert_eq!(row.len(), 1);
    assert!(!row.is_empty());
    assert_eq!(row.render(0, 1), "a\u{308}");
    assert_eq!(row.render(1, 2), "");
}

#[test]
fn render_slices_by_cluster_and_shows_tabs_as_spaces() {
    let row = Row::from("a\tb\u{e9}cd");
    assert_eq!(row.len(), 6);
    assert_eq!(row.render(0, 3), "a b");
    assert_eq!(row.render(3, 100), "\u{e9}cd");
    assert_eq!(row.render(2, 4), "b\u{e9}");
    assert_eq!(row.render(4, 2), "");
    assert_eq!(row.render(9, 12), "");
    assert_eq!(row.render(0, 0), "");
    let empty = Row::from("");
    assert!(empty.is_empty());
    assert_eq!(empty.render(0, 10), "");
}

#[test]
fn render_clusters_takes_the_given_split() {
    let clusters: Vec<String> = vec!["x".to_string(), "\t".to_string(), "yz".to_string()];
    assert_eq!(render_clusters(&clusters, 0, 3), "x yz");
    assert_eq!(render_clusters(&clusters, 2, 3), "yz");
    assert_eq!(render_clusters(&clusters, 3, 1), "");
}

#[test]
fn absent_rows_past_the_end() {
    let empty = Document::default();
    assert!(empty.is_empty());
    assert_eq!(empty.len(), 0);
    assert!(empty.row(0).is_none());
    assert!(empty.row(usize::MAX).is_none());
    let d = doc(&["one", "two"]);
    assert_eq!(d.len(), 2);
    assert!(!d.is_empty());
    assert_eq!(d.row(1).map(|r| r.render(0, 10)), Some("two".to_string()));
    assert!(d.row(2).is_none());
    assert!(d.row(7).is_none());
}

#[test]
fn right_and_left_wrap_between_rows() {
    let mut e = editor(&["abc", "de"], 80, 20);
    e.process_keypress(Key::End);
    assert_eq!(e.cursor_position(), Position { x: 3, y: 0 });
    e.process_keypress(Key::Right);
    assert_eq!(e.cursor_position(), Position { x: 0, y: 1 });
    e.process_keypress(Key::Left);
    assert_eq!(e.cursor_position(), Position { x: 3, y: 0 });
    e.process_keypress(Key::Left);
    assert_eq!(e.cursor_position(), Position { x: 2, y: 0 });
}

#[test]
fn movement_stays_in_document() {
    let mut e = editor(&["abcdef", "xy", ""], 80, 10);
    e.process_keypress(Key::End);
    assert_eq!(e.cursor_position(), Position { x: 6, y: 0 });
    e.process_keypress(Key::Down);
    assert_eq!(e.cursor_position(), Position { x: 2, y: 1 });
    e.process_keypress(Key::Down);
    assert_eq!(e.cursor_position(), Position { x: 0, y: 2 });
    e.process_keypress(Key::Down);
    assert_eq!(e.cursor_position(), Position { x: 0, y: 3 });
    e.process_keypress(Key::Down);
    assert_eq!(e.cursor_position(), Position { x: 0, y: 3 });
    e.process_keypress(Key::Right);
    assert_eq!(e.cursor_position(), Position { x: 0, y: 3 });
    e.process_keypress(Key::Up);
    e.process_keypress(Key::Up);
    e.process_keypress(Key::Up);
    e.process_keypress(Key::Up);
    assert_eq!(e.cursor_position(), Position { x: 0, y: 0 });
    e.process_keypress(Key::Left);
    assert_eq!(e.cursor_position(), Position { x: 0, y: 0 });
    e.process_keypress(Key::Char('z'));
    assert_eq!(e.cursor_position(), Position { x: 0, y: 0 });
    e.process_keypress(Key::End);
    e.process_keypress(Key::Home);
    assert_eq!(e.cursor_position(), Position { x: 0, y: 0 });
}

#[test]
fn page_keys_jump_half_a_screen() {
    let lines: Vec<&str> = vec!["line"; 30];
    let mut e = editor(&lines, 80, 10);
    e.process_keypress(Key::PageDown);
    assert_eq!(e.cursor_position().y, 5);
    e.process_keypress(Key::PageDown);
    e.process_keypress(Key::PageDown);
    e.process_keypress(Key::PageDown);
    e.process_keypress(Key::PageDown);
    e.process_keypress(Key::PageDown);
    assert_eq!(e.cursor_position().y, 30);
    e.process_keypress(Key::PageDown);
    assert_eq!(e.cursor_position().y, 30);
    e.process_keypress(Key::PageUp);
    assert_eq!(e.cursor_position().y, 25);
    e.process_keypress(Key::Up);
    e.process_keypress(Key::Up);
    e.process_keypress(Key::Up);
    e.process_keypress(Key::Up);
    e.process_keypress(Key::Up);
    e.process_keypress(Key::Up);
    e.process_keypress(Key::Up);
    e.process_keypress(Key::Up);
    e.process_keypress(Key::Up);
    e.process_keypress(Key::Up);
    e.process_keypress(Key::Up);
    e.process_keypress(Key::Up);
    e.process_keypress(Key::Up);
    e.process_keypress(Key::Up);
    e.process_keypress(Key::Up);
    e.process_keypress(Key::Up);
    e.process_keypress(Key::Up);
    e.process_keypress(Key::Up);
    e.process_keypress(Key::Up);
    e.process_keypress(Key::Up);
    e.process_keypress(Key::Up);
    e.process_keypress(Key::Up);
    assert_eq!(e.cursor_position().y, 3);
    e.process_keypress(Key::PageUp);
    assert_eq!(e.cursor_position().y, 0);
}

#[test]
fn scrolling_keeps_cursor_in_view() {
    let lines: Vec<&str> = vec!["0123456789"; 12];
    let mut e = editor(&lines, 4, 3);
    for _ in 0..5 {
        e.process_keypress(Key::Down);
    }
    assert_eq!(e.cursor_position(), Position { x: 0, y: 5 });
    assert_eq!(e.offset(), Position { x: 0, y: 3 });
    e.process_keypress(Key::End);
    assert_eq!(e.cursor_position(), Position { x: 10, y: 5 });
    assert_eq!(e.offset(), Position { x: 7, y: 3 });
    assert_eq!(e.screen_cursor(), Position { x: 3, y: 2 });
    e.process_keypress(Key::Home);
    assert_eq!(e.offset(), Position { x: 0, y: 3 });
    e.process_keypress(Key::Up);
    e.process_keypress(Key::Up);
    e.process_keypress(Key::Up);
    e.process_keypress(Key::Up);
    assert_eq!(e.cursor_position(), Position { x: 0, y: 1 });
    assert_eq!(e.offset(), Position { x: 0, y: 1 });
    let lines = e.draw_rows("banner");
    assert_eq!(lines, vec!["0123", "0123", "0123"]);
}

#[test]
fn quit_chord_sets_quitting() {
    let mut e = editor(&["abc"], 80, 20);
    assert!(!e.is_quitting());
    e.process_keypress(Key::Ctrl('x'));
    assert!(!e.is_quitting());
    e.process_keypress(Key::Ctrl('q'));
    assert!(e.is_quitting());
    assert_eq!(e.cursor_position(), Position { x: 0, y: 0 });
}

#[test]
fn rows_past_the_end_show_markers_and_welcome() {
    let e = Editor::new(Document::default(), Size { width: 20, height: 6 }, String::new());
    let lines = e.draw_rows("Hi there");
    assert_eq!(lines.len(), 6);
    assert_eq!(lines[0], "~");
    assert_eq!(lines[2], "~     Hi there");
    assert_eq!(lines[5], "~");
    let narrow = Editor::new(Document::default(), Size { width: 5, height: 3 }, String::new());
    assert_eq!(narrow.draw_welcome_message("Hi there"), "~Hi t");
    let e = editor(&["ab\tc"], 10, 3);
    assert_eq!(e.draw_rows("banner"), vec!["ab c", "~", "~"]);
}

#[test]
fn status_bar_pads_and_cuts() {
    let e = editor(&["a", "b", "c"], 30, 5);
    assert_eq!(e.draw_status_bar(), "notes.txt - 3 lines        1/3");
    let e = editor(&["a", "b", "c"], 10, 5);
    assert_eq!(e.draw_status_bar(), "notes.txt ");
    let nameless = Editor::new(Document::default(), Size { width: 25, height: 5 }, String::new());
    assert_eq!(nameless.draw_status_bar(), "[No Name] - 0 lines   1/0");
    let long = Document::from_lines(&vec![], Some("abcdefghijklmnopqrstuvwxyz".to_string()));
    let e = Editor::new(long, Size { width: 40, height: 5 }, String::new());
    assert_eq!(e.draw_status_bar(), "abcdefghijklmnopqrst - 0 lines       1/0");
}

#[test]
fn message_bar_times_out() {
    let e = editor(&["a"], 8, 5);
    assert_eq!(e.draw_message_bar(0), "HELP: Ct");
    assert_eq!(e.draw_message_bar(4999), "HELP: Ct");
    assert_eq!(e.draw_message_bar(5000), "");
}

#[test]
fn terminal_coordinates_are_one_based_and_saturate() {
    assert_eq!(goto_coordinates(Position { x: 0, y: 0 }), (1, 1));
    assert_eq!(goto_coordinates(Position { x: 4, y: 9 }), (5, 10));
    assert_eq!(goto_coordinates(Position { x: 70000, y: usize::MAX }), (u16::MAX, u16::MAX));
    assert_eq!(Size::viewport(80, 24), Size { width: 80, height: 22 });
    assert_eq!(Size::viewport(80, 1), Size { width: 80, height: 0 });
}

#[test]
fn text_helpers() {
    assert_eq!(decimal_string(0), "0");
    assert_eq!(decimal_string(1207), "1207");
    assert_eq!(decimal_string(usize::MAX), usize::MAX.to_string());
    assert_eq!(space_string(3), "   ");
    assert_eq!(prefix_string("h\u{e9}llo", 2), "h\u{e9}");
    assert_eq!(prefix_string("hi", 5), "hi");
}
