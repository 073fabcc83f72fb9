//! What is painted for a session: a help line, the query box with its
//! cursor, and the numbered list with its highlighted row.
use vstd::prelude::*;
use crate::input::collect_chars;
use crate::matcher::texts;
use crate::session::{InputMode, Session};

verus! {

/// The character for a digit below ten.
pub open spec fn digit(d: nat) -> char {
    if d == 0 {
        '0'
    } else if d == 1 {
        '1'
    } else if d == 2 {
        '2'
    } else if d == 3 {
        '3'
    } else if d == 4 {
        '4'
    } else if d == 5 {
        '5'
    } else if d == 6 {
        '6'
    } else if d == 7 {
        '7'
    } else if d == 8 {
        '8'
    } else {
        '9'
    }
}

/// A number in decimal digits, without leading zeros.
pub open spec fn decimal(n: nat) -> Seq<char>
    decreases n,
{
    if n < 10 {
        seq![digit(n)]
    } else {
        decimal(n / 10).push(digit(n % 10))
    }
}

/// The text of a row of the list: its position, a colon, a space and the
/// candidate.
pub open spec fn row_label(index: nat, item: Seq<char>) -> Seq<char> {
    decimal(index) + seq![':', ' '] + item
}

/// The rows of the list, one for each shown candidate, in order.
pub open spec fn row_labels(items: Seq<Seq<char>>) -> Seq<Seq<char>> {
    Seq::new(items.len(), |i: int| row_label(i as nat, items[i]))
}

/// The help line as pieces of text, each with whether it is set in bold. It
/// is empty until the session takes keys.
pub open spec fn help_line(mode: InputMode) -> Seq<(Seq<char>, bool)> {
    match mode {
        InputMode::Normal => Seq::empty(),
        InputMode::Editing => seq![
            ("Press "@, false),
            ("Esc"@, true),
            (" to clear filter, use Up/Down to move, "@, false),
            ("Enter"@, true),
            (" to confirm selection."@, false),
        ],
    }
}

/// The cell of the cursor for a query box whose corner is at column `x` and
/// row `y`: inside the border, behind `column` characters. There is none
/// where that cell has no coordinates.
pub open spec fn cursor_cell(x: u16, y: u16, column: nat) -> Option<(u16, u16)> {
    if x + column + 1 <= u16::MAX && y + 1 <= u16::MAX {
        Some(((x + column + 1) as u16, (y + 1) as u16))
    } else {
        None
    }
}

/// A piece of the help line.
pub struct Span {
    pub content: String,
    pub bold: bool,
}

/// The pieces of a help line as pairs of text and boldness.
pub open spec fn spans(line: Seq<Span>) -> Seq<(Seq<char>, bool)> {
    line.map_values(|s: Span| (s.content@, s.bold))
}

/// What a [`Frame`] stands for.
pub struct FrameView {
    pub help: Seq<(Seq<char>, bool)>,
    pub input: Seq<char>,
    pub active: bool,
    pub cursor: Option<nat>,
    pub rows: Seq<Seq<char>>,
    pub highlighted: Option<nat>,
}

/// The frame that shows a state. It is a function of the state alone.
pub open spec fn painted(
    mode: InputMode,
    query: Seq<char>,
    cursor: nat,
    items: Seq<Seq<char>>,
    selected: Option<nat>,
) -> FrameView {
    FrameView {
        help: help_line(mode),
        input: query,
        active: mode == InputMode::Editing,
        cursor: if mode == InputMode::Editing {
            Some(cursor)
        } else {
            None
        },
        rows: row_labels(items),
        highlighted: selected,
    }
}

/// What to paint, from top to bottom: the help line, the query box and the
/// list.
pub struct Frame {
    /// The pieces of the help line.
    pub help: Vec<Span>,
    /// The text in the query box.
    pub input: String,
    /// Whether the query box is drawn as the active field.
    pub active: bool,
    /// The number of characters to the left of the cursor, where a cursor is
    /// drawn.
    pub cursor: Option<usize>,
    /// The rows of the list.
    pub rows: Vec<String>,
    /// The row that is highlighted.
    pub highlighted: Option<usize>,
}

impl View for Frame {
    type V = FrameView;

    open spec fn view(&self) -> FrameView {
        FrameView {
            help: spans(self.help@),
            input: self.input@,
            active: self.active,
            cursor: match self.cursor {
                Some(c) => Some(c as nat),
                None => None,
            },
            rows: texts(self.rows@),
            highlighted: match self.highlighted {
                Some(i) => Some(i as nat),
                None => None,
            },
        }
    }
}

fn digit_char(d: usize) -> (c: char)
    requires
        d < 10,
    ensures
        c == digit(d as nat),
{
    if d == 0 {
        '0'
    } else if d == 1 {
        '1'
    } else if d == 2 {
        '2'
    } else if d == 3 {
        '3'
    } else if d == 4 {
        '4'
    } else if d == 5 {
        '5'
    } else if d == 6 {
        '6'
    } else if d == 7 {
        '7'
    } else if d == 8 {
        '8'
    } else {
        '9'
    }
}

fn push_decimal(n: usize, out: &mut Vec<char>)
    ensures
        final(out)@ == old(out)@ + decimal(n as nat),
    decreases n,
{
    if n >= 10 {
        push_decimal(n / 10, out);
    }
    out.push(digit_char(n % 10));
    assert(out@ =~= old(out)@ + decimal(n as nat));
}

/// The text of the row at `index` that shows `item`.
pub fn label(index: usize, item: &str) -> (row: String)
    ensures
        row@ == row_label(index as nat, item@),
{
    let mut head: Vec<char> = Vec::new();
    push_decimal(index, &mut head);
    head.push(':');
    head.push(' ');
    let row: String = collect_chars(&head).concat(item);
    assert(row@ =~= row_label(index as nat, item@));
    row
}

fn help_spans(mode: InputMode) -> (line: Vec<Span>)
    ensures
        spans(line@) == help_line(mode),
{
    let mut line: Vec<Span> = Vec::new();
    match mode {
        InputMode::Normal => {},
        InputMode::Editing => {
            line.push(Span { content: "Press ".to_owned(), bold: false });
            line.push(Span { content: "Esc".to_owned(), bold: true });
            line.push(
                Span { content: " to clear filter, use Up/Down to move, ".to_owned(), bold: false },
            );
            line.push(Span { content: "Enter".to_owned(), bold: true });
            line.push(Span { content: " to confirm selection.".to_owned(), bold: false });
        },
    }
    assert(spans(line@) =~= help_line(mode));
    line
}

/// The frame for a state. It changes nothing: the same state gives the same
/// frame.
pub fn render(
    mode: InputMode,
    query: &str,
    cursor: usize,
    items: &Vec<String>,
    selected: Option<usize>,
) -> (frame: Frame)
    ensures
        frame@ == painted(
            mode,
            query@,
            cursor as nat,
            texts(items@),
            match selected {
                Some(i) => Some(i as nat),
                None => None,
            },
        ),
{
    let mut rows: Vec<String> = Vec::new();
    let mut i: usize = 0;
    while i < items.len()
        invariant
            0 <= i <= items.len(),
            rows@.len() == i,
            forall|k: int| 0 <= k < i ==> (#[trigger] rows@[k])@ == row_label(k as nat, items@[k]@),
        decreases items.len() - i,
    {
        rows.push(label(i, items[i].as_str()));
        i += 1;
    }
    assert(texts(rows@) =~= row_labels(texts(items@)));
    let editing: bool = match mode {
        InputMode::Normal => false,
        InputMode::Editing => true,
    };
    Frame {
        help: help_spans(mode),
        input: query.to_owned(),
        active: editing,
        cursor: if editing {
            Some(cursor)
        } else {
            None
        },
        rows,
        highlighted: selected,
    }
}

impl Frame {
    /// The cell of the cursor for a query box whose corner is at column `x`
    /// and row `y`, where the frame has a cursor and the cell has
    /// coordinates.
    pub fn cursor_position(&self, x: u16, y: u16) -> (cell: Option<(u16, u16)>)
        ensures
            cell == match self@.cursor {
                Some(column) => cursor_cell(x, y, column),
                None => None,
            },
    {
        match self.cursor {
            Some(column) => {
                if y < u16::MAX && x < u16::MAX && column < (u16::MAX - x) as usize {
                    Some((x + column as u16 + 1, y + 1))
                } else {
                    None
                }
            },
            None => None,
        }
    }
}

impl Session {
    /// The frame that shows the session as it stands.
    pub fn draw(&self) -> (frame: Frame)
        ensures
            frame@ == painted(
                self@.mode,
                self@.query.text,
                self@.query.cursor,
                self@.items,
                self@.selected,
            ),
    {
        let text: String = self.input().text();
        render(
            self.input_mode(),
            text.as_str(),
            self.input().cursor(),
            self.items(),
            self.selected(),
        )
    }
}

} // verus!
