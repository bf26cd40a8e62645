use hecto::editor::{Editor, EditorEvent, Key, Location, Position};
use hecto::view::Size;

fn chars(s: &str) -> Vec<char> {
    s.chars().collect()
}

fn editor_with(content: &str, width: usize, height: usize) -> Editor {
    let mut ed = Editor::new();
    ed.view.load(&chars(content));
    ed.view.resize(Size { width, height });
    ed
}

fn press(ed: &mut Editor, key: Key) -> bool {
    ed.evaluate_event(EditorEvent::KeyPress { key, ctrl: false })
}

#[test]
fn down_moves_cursor_within_grid() {
    let mut ed = editor_with("a\nb\nc", 10, 3);
    press(&mut ed, Key::Down);
    assert_eq!(ed.location, Location { x: 0, y: 1 });
    assert_eq!(ed.offset_y, 0);
}

#[test]
fn down_at_bottom_row_scrolls_by_one() {
    let mut ed = editor_with("a\nb\nc", 10, 2);
    press(&mut ed, Key::Down);
    press(&mut ed, Key::Down);
    assert_eq!(ed.location, Location { x: 0, y: 1 });
    assert_eq!(ed.offset_y, 1);
    press(&mut ed, Key::Down);
    assert_eq!(ed.offset_y, 2);
}

#[test]
fn up_at_top_row_scrolls_back_by_one() {
    let mut ed = editor_with("a\nb\nc", 10, 2);
    ed.offset_y = 2;
    press(&mut ed, Key::Up);
    assert_eq!(ed.location, Location { x: 0, y: 0 });
    assert_eq!(ed.offset_y, 1);
}

#[test]
fn up_at_top_with_nothing_scrolled_is_noop() {
    let mut ed = editor_with("a\nb", 10, 2);
    press(&mut ed, Key::Up);
    assert_eq!(ed.location, Location { x: 0, y: 0 });
    assert_eq!(ed.offset_y, 0);
}

#[test]
fn left_stops_at_first_column() {
    let mut ed = editor_with("abc", 10, 2);
    press(&mut ed, Key::Left);
    assert_eq!(ed.location.x, 0);
    press(&mut ed, Key::Right);
    press(&mut ed, Key::Left);
    assert_eq!(ed.location.x, 0);
}

#[test]
fn right_stops_at_last_column() {
    let mut ed = editor_with("abc", 3, 2);
    for _ in 0..5 {
        press(&mut ed, Key::Right);
    }
    assert_eq!(ed.location.x, 2);
}

#[test]
fn home_and_end_jump_to_grid_edges() {
    let mut ed = editor_with("abc", 7, 2);
    press(&mut ed, Key::End);
    assert_eq!(ed.location.x, 6);
    press(&mut ed, Key::Home);
    assert_eq!(ed.location.x, 0);
}

#[test]
fn page_up_and_page_down_jump_to_grid_edges() {
    let mut ed = editor_with("a\nb\nc", 10, 5);
    press(&mut ed, Key::PageDown);
    assert_eq!(ed.location.y, 4);
    press(&mut ed, Key::PageUp);
    assert_eq!(ed.location.y, 0);
}

#[test]
fn navigation_keeps_cursor_on_grid() {
    let mut ed = editor_with("a\nb\nc\nd\ne", 4, 3);
    let keys = [
        Key::Down, Key::Down, Key::Down, Key::Right, Key::Right, Key::Right, Key::Right,
        Key::End, Key::PageDown, Key::Up, Key::Left, Key::Home, Key::PageUp,
    ];
    for key in keys {
        press(&mut ed, key);
        assert!(ed.location.x < 4);
        assert!(ed.location.y < 3);
    }
}

#[test]
fn ctrl_q_raises_quit_flag() {
    let mut ed = editor_with("abc", 10, 2);
    let save = ed.evaluate_event(EditorEvent::KeyPress { key: Key::Char('q'), ctrl: true });
    assert!(!save);
    assert!(ed.should_quit);
    assert_eq!(ed.view.save_buffer(), chars("abc"));
}

#[test]
fn ctrl_s_requests_save_and_changes_nothing() {
    let mut ed = editor_with("abc", 10, 2);
    let save = ed.evaluate_event(EditorEvent::KeyPress { key: Key::Char('s'), ctrl: true });
    assert!(save);
    assert!(!ed.should_quit);
    assert_eq!(ed.location, Location { x: 0, y: 0 });
    assert_eq!(ed.view.save_buffer(), chars("abc"));
}

#[test]
fn typing_inserts_and_advances_cursor() {
    let mut ed = editor_with("ac", 10, 2);
    press(&mut ed, Key::Right);
    press(&mut ed, Key::Char('b'));
    assert_eq!(ed.view.save_buffer(), chars("abc"));
    assert_eq!(ed.location.x, 2);
}

#[test]
fn typing_at_scrolled_viewport_edits_visible_line() {
    let mut ed = editor_with("aa\nbb", 10, 2);
    ed.offset_y = 1;
    press(&mut ed, Key::Char('X'));
    assert_eq!(ed.view.save_buffer(), chars("aa\nXbb"));
}

#[test]
fn typing_on_empty_document_still_advances_cursor() {
    let mut ed = editor_with("", 10, 2);
    press(&mut ed, Key::Char('x'));
    assert!(ed.view.buffer.is_empty());
    assert_eq!(ed.location.x, 1);
}

#[test]
fn backspace_deletes_left_of_cursor() {
    let mut ed = editor_with("abc", 10, 2);
    press(&mut ed, Key::Right);
    press(&mut ed, Key::Right);
    press(&mut ed, Key::Backspace);
    assert_eq!(ed.view.save_buffer(), chars("ac"));
    assert_eq!(ed.location.x, 1);
}

#[test]
fn backspace_at_column_zero_is_noop() {
    let mut ed = editor_with("abc", 10, 2);
    press(&mut ed, Key::Backspace);
    assert_eq!(ed.location, Location { x: 0, y: 0 });
    assert_eq!(ed.view.save_buffer(), chars("abc"));
    assert_eq!(ed.offset_y, 0);
    assert!(!ed.should_quit);
}

#[test]
fn resize_event_updates_grid_size() {
    let mut ed = editor_with("abc", 10, 2);
    ed.evaluate_event(EditorEvent::WindowResize { width: 7, height: 4 });
    assert_eq!(ed.view.size, Size { width: 7, height: 4 });
    assert!(ed.view.needs_redraw);
}

#[test]
fn unknown_events_are_ignored() {
    let mut ed = editor_with("abc", 10, 2);
    ed.evaluate_event(EditorEvent::Other);
    press(&mut ed, Key::Other);
    assert_eq!(ed.location, Location { x: 0, y: 0 });
    assert_eq!(ed.offset_y, 0);
    assert!(!ed.should_quit);
    assert_eq!(ed.view.save_buffer(), chars("abc"));
}

#[test]
fn refresh_screen_returns_rows_and_cursor() {
    let mut ed = editor_with("abc\ndef", 10, 3);
    press(&mut ed, Key::Right);
    press(&mut ed, Key::Down);
    let (rows, pos) = ed.refresh_screen();
    assert_eq!(pos, Position { col: 1, row: 1 });
    let texts: Vec<String> = rows.iter().map(|r| r.iter().collect()).collect();
    assert_eq!(texts, vec!["abc".to_string(), "def".to_string(), "~".to_string()]);
    assert!(!ed.view.needs_redraw);
}

#[test]
fn refresh_screen_applies_scroll_offset() {
    let mut ed = editor_with("a\nb\nc", 10, 1);
    ed.offset_y = 2;
    let (rows, _) = ed.refresh_screen();
    let texts: Vec<String> = rows.iter().map(|r| r.iter().collect()).collect();
    assert_eq!(texts, vec!["c".to_string()]);
}

#[test]
fn new_editor_starts_clean() {
    let ed = Editor::new();
    assert!(!ed.should_quit);
    assert_eq!(ed.location, Location { x: 0, y: 0 });
    assert_eq!(ed.offset_y, 0);
    assert!(ed.view.buffer.is_empty());
}
