use picker::input::InputBuffer;

fn typed(text: &str) -> InputBuffer {
    let mut buf = InputBuffer::new();
    for c in text.chars() {
        buf.enter_char(c);
    }
    buf
}

#[test]
fn new_buffer_is_empty() {
    let buf = InputBuffer::new();
    assert_eq!(buf.text(), "");
    assert_eq!(buf.cursor(), 0);
    assert_eq!(buf.len(), 0);
    assert!(buf.is_empty());
}

#[test]
fn typing_appends_and_advances() {
    let buf = typed("abc");
    assert_eq!(buf.text(), "abc");
    assert_eq!(buf.cursor(), 3);
    assert_eq!(buf.len(), 3);
    assert!(!buf.is_empty());
    assert_eq!(buf.chars(), &vec!['a', 'b', 'c']);
}

#[test]
fn typing_in_the_middle_inserts_at_the_cursor() {
    let mut buf = typed("ac");
    buf.move_cursor_left();
    buf.enter_char('b');
    assert_eq!(buf.text(), "abc");
    assert_eq!(buf.cursor(), 2);
}

#[test]
fn delete_at_start_changes_nothing() {
    let mut buf = typed("abc");
    buf.move_cursor_left();
    buf.move_cursor_left();
    buf.move_cursor_left();
    assert_eq!(buf.cursor(), 0);
    buf.delete_char();
    assert_eq!(buf.text(), "abc");
    assert_eq!(buf.cursor(), 0);

    let mut empty = InputBuffer::new();
    empty.delete_char();
    assert_eq!(empty.text(), "");
    assert_eq!(empty.cursor(), 0);
}

#[test]
fn delete_removes_the_character_before_the_cursor() {
    let mut buf = typed("abc");
    buf.move_cursor_left();
    buf.delete_char();
    assert_eq!(buf.text(), "ac");
    assert_eq!(buf.cursor(), 1);
    buf.delete_char();
    assert_eq!(buf.text(), "c");
    assert_eq!(buf.cursor(), 0);
}

#[test]
fn delete_at_the_end_removes_the_last_character() {
    let mut buf = typed("abc");
    buf.delete_char();
    assert_eq!(buf.text(), "ab");
    assert_eq!(buf.cursor(), 2);
}

#[test]
fn multibyte_characters_are_whole_units() {
    let mut buf = typed("héß日🙂");
    assert_eq!(buf.len(), 5);
    assert_eq!(buf.cursor(), 5);
    buf.delete_char();
    assert_eq!(buf.text(), "héß日");
    buf.move_cursor_left();
    buf.move_cursor_left();
    buf.delete_char();
    assert_eq!(buf.text(), "hß日");
    assert_eq!(buf.cursor(), 1);
    buf.enter_char('é');
    assert_eq!(buf.text(), "héß日");
    assert_eq!(buf.cursor(), 2);
}

#[test]
fn cursor_saturates_at_both_ends() {
    let mut buf = typed("ab");
    buf.move_cursor_right();
    buf.move_cursor_right();
    assert_eq!(buf.cursor(), 2);
    buf.move_cursor_left();
    assert_eq!(buf.cursor(), 1);
    buf.move_cursor_left();
    buf.move_cursor_left();
    buf.move_cursor_left();
    assert_eq!(buf.cursor(), 0);
    buf.move_cursor_right();
    assert_eq!(buf.cursor(), 1);
    assert_eq!(buf.text(), "ab");
}

#[test]
fn clamp_cursor_limits_to_the_text() {
    let buf = typed("abc");
    assert_eq!(buf.clamp_cursor(0), 0);
    assert_eq!(buf.clamp_cursor(2), 2);
    assert_eq!(buf.clamp_cursor(3), 3);
    assert_eq!(buf.clamp_cursor(4), 3);
    assert_eq!(buf.clamp_cursor(usize::MAX), 3);
    assert_eq!(InputBuffer::new().clamp_cursor(7), 0);
}

#[test]
fn cursor_stays_in_range_over_a_mixed_run() {
    let mut buf = InputBuffer::new();
    let steps = [0u8, 0, 3, 1, 2, 2, 2, 0, 3, 3, 3, 1, 1, 1, 1, 2, 0, 1, 3, 0];
    for step in steps {
        match step {
            0 => buf.enter_char('x'),
            1 => buf.delete_char(),
            2 => buf.move_cursor_left(),
            _ => buf.move_cursor_right(),
        }
        assert!(buf.cursor() <= buf.len());
        assert_eq!(buf.len(), buf.text().chars().count());
    }
}

#[test]
fn type_then_erase_round_trip() {
    let mut buf = typed("hello");
    buf.move_cursor_left();
    buf.move_cursor_left();
    let inserted = "wörld日";
    for c in inserted.chars() {
        buf.enter_char(c);
    }
    assert_eq!(buf.text(), "helwörld日lo");
    assert_eq!(buf.cursor(), 9);
    for _ in inserted.chars() {
        buf.delete_char();
    }
    assert_eq!(buf.text(), "hello");
    assert_eq!(buf.cursor(), 3);
}
