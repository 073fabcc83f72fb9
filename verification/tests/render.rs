use picker::render::{label, render, Frame};
use picker::session::{Event, InputMode, KeyCode, KeyKind, Session};

fn list(items: &[&str]) -> Vec<String> {
    items.iter().map(|s| s.to_string()).collect()
}

fn help_of(frame: &Frame) -> Vec<(String, bool)> {
    frame.help.iter().map(|s| (s.content.clone(), s.bold)).collect()
}

#[test]
fn label_numbers_the_row() {
    assert_eq!(label(0, "apple"), "0: apple");
    assert_eq!(label(7, ""), "7: ");
    assert_eq!(label(10, "x"), "10: x");
    assert_eq!(label(12345, "日本"), "12345: 日本");
    assert_eq!(label(9007199254740993, "z"), "9007199254740993: z");
    assert_eq!(label(usize::MAX, "m"), format!("{}: m", usize::MAX));
}

#[test]
fn normal_frame_has_no_help_and_no_cursor() {
    let frame = render(InputMode::Normal, "ab", 1, &list(&["x", "y"]), Some(0));
    assert!(frame.help.is_empty());
    assert_eq!(frame.input, "ab");
    assert!(!frame.active);
    assert_eq!(frame.cursor, None);
    assert_eq!(frame.cursor_position(0, 0), None);
    assert_eq!(frame.rows, list(&["0: x", "1: y"]));
    assert_eq!(frame.highlighted, Some(0));
}

#[test]
fn editing_frame_lists_the_keys() {
    let frame = render(InputMode::Editing, "ab", 1, &list(&["x", "y", "z"]), Some(2));
    assert_eq!(
        help_of(&frame),
        vec![
            ("Press ".to_string(), false),
            ("Esc".to_string(), true),
            (" to clear filter, use Up/Down to move, ".to_string(), false),
            ("Enter".to_string(), true),
            (" to confirm selection.".to_string(), false),
        ]
    );
    assert_eq!(frame.input, "ab");
    assert!(frame.active);
    assert_eq!(frame.cursor, Some(1));
    assert_eq!(frame.rows, list(&["0: x", "1: y", "2: z"]));
    assert_eq!(frame.highlighted, Some(2));
}

#[test]
fn empty_list_has_no_rows_and_no_highlight() {
    let frame = render(InputMode::Editing, "", 0, &Vec::new(), None);
    assert!(frame.rows.is_empty());
    assert_eq!(frame.highlighted, None);
    assert_eq!(frame.input, "");
    assert_eq!(frame.cursor, Some(0));
}

#[test]
fn cursor_cell_is_inside_the_border() {
    let frame = render(InputMode::Editing, "abc", 2, &Vec::new(), None);
    assert_eq!(frame.cursor_position(0, 1), Some((3, 2)));
    assert_eq!(frame.cursor_position(5, 9), Some((8, 10)));
    let at_start = render(InputMode::Editing, "abc", 0, &Vec::new(), None);
    assert_eq!(at_start.cursor_position(0, 0), Some((1, 1)));
}

#[test]
fn cursor_cell_outside_the_coordinates_is_none() {
    let frame = render(InputMode::Editing, "abc", 2, &Vec::new(), None);
    assert_eq!(frame.cursor_position(u16::MAX - 3, 0), Some((u16::MAX, 1)));
    assert_eq!(frame.cursor_position(u16::MAX - 2, 0), None);
    assert_eq!(frame.cursor_position(u16::MAX, 0), None);
    assert_eq!(frame.cursor_position(0, u16::MAX), None);
    assert_eq!(frame.cursor_position(0, u16::MAX - 1), Some((3, u16::MAX)));
    let far = render(InputMode::Editing, "", 70000, &Vec::new(), None);
    assert_eq!(far.cursor_position(0, 0), None);
    let edge = render(InputMode::Editing, "", 65534, &Vec::new(), None);
    assert_eq!(edge.cursor_position(0, 0), Some((u16::MAX, 1)));
    let over = render(InputMode::Editing, "", 65535, &Vec::new(), None);
    assert_eq!(over.cursor_position(0, 0), None);
}

#[test]
fn rendering_twice_gives_the_same_frame() {
    let items = list(&["x", "y"]);
    let first = render(InputMode::Editing, "q", 1, &items, Some(1));
    let second = render(InputMode::Editing, "q", 1, &items, Some(1));
    assert_eq!(help_of(&first), help_of(&second));
    assert_eq!(first.input, second.input);
    assert_eq!(first.active, second.active);
    assert_eq!(first.cursor, second.cursor);
    assert_eq!(first.rows, second.rows);
    assert_eq!(first.highlighted, second.highlighted);
}

#[test]
fn session_draws_its_state() {
    let mut session = Session::new(list(&["apple", "banana", "grape"]));
    session.enter();
    session.refresh();
    let before = session.draw();
    assert_eq!(before.help.len(), 5);
    assert!(before.active);
    assert_eq!(before.cursor, Some(0));
    assert_eq!(before.cursor_position(0, 1), Some((1, 2)));
    assert_eq!(before.rows.len(), 3);
    assert_eq!(before.highlighted, Some(0));

    for c in "ap".chars() {
        session.handle(Event::Key(KeyCode::Char(c), KeyKind::Press));
    }
    session.handle(Event::Key(KeyCode::Down, KeyKind::Press));
    session.handle(Event::Key(KeyCode::Left, KeyKind::Press));
    let frame = session.draw();
    assert_eq!(frame.help.len(), 5);
    assert_eq!(frame.input, "ap");
    assert!(frame.active);
    assert_eq!(frame.cursor, Some(1));
    assert_eq!(frame.cursor_position(0, 1), Some((2, 2)));
    assert_eq!(frame.rows, list(&["0: apple", "1: grape"]));
    assert_eq!(frame.highlighted, Some(1));
    assert_eq!(session.input().text(), "ap");
    assert_eq!(session.selected(), Some(1));
}
