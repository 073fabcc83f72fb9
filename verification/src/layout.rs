//! Where on the screen the three panes go: the help line on top, the query
//! box below it and the list in what is left.
use ratatui::layout::{Constraint, Layout, Rect};
use vstd::prelude::*;

verus! {

/// The rows of the help line.
pub const HELP_ROWS: u16 = 1;

/// The rows of the query box: one line of text inside a border.
pub const INPUT_ROWS: u16 = 3;

/// The fewest rows that the list asks for.
pub const LIST_MIN_ROWS: u16 = 1;

/// A rectangle of cells: its corner, and how many columns and rows it takes.
#[derive(Clone, Copy, PartialEq, Eq, Debug)]
pub struct Area {
    pub x: u16,
    pub y: u16,
    pub width: u16,
    pub height: u16,
}

/// The three panes of a frame, from top to bottom.
#[derive(Clone, Copy, PartialEq, Eq, Debug)]
pub struct Panes {
    pub help: Area,
    pub input: Area,
    pub items: Area,
}

/// The value in `low ..= high` that is nearest to `v`.
pub open spec fn nearest(v: int, low: int, high: int) -> int {
    if v < low {
        low
    } else if v > high {
        high
    } else {
        v
    }
}

impl Area {
    /// The column behind the last one.
    pub open spec fn right(self) -> int {
        self.x + self.width
    }

    /// The row below the last one.
    pub open spec fn bottom(self) -> int {
        self.y + self.height
    }

    /// No cell of this area is outside `bounds`, and its corner is not
    /// either.
    pub open spec fn inside(self, bounds: Area) -> bool {
        &&& bounds.x <= self.x
        &&& self.right() <= bounds.right()
        &&& bounds.y <= self.y
        &&& self.bottom() <= bounds.bottom()
    }

    /// The part of this area that lies in `bounds`: each edge is moved to
    /// the nearest place that `bounds` admits.
    pub open spec fn clipped(self, bounds: Area) -> Area {
        let left = nearest(self.x as int, bounds.x as int, bounds.right());
        let right = nearest(self.right(), bounds.x as int, bounds.right());
        let top = nearest(self.y as int, bounds.y as int, bounds.bottom());
        let bottom = nearest(self.bottom(), bounds.y as int, bounds.bottom());
        Area {
            x: left as u16,
            y: top as u16,
            width: (right - left) as u16,
            height: (bottom - top) as u16,
        }
    }

    /// The rows `top`, `middle` and the rest of this area, stacked from its
    /// first row down, each over all its columns.
    pub open spec fn stacked(self, top: u16, middle: u16) -> Panes {
        Panes {
            help: Area { x: self.x, y: self.y, width: self.width, height: top },
            input: Area { x: self.x, y: (self.y + top) as u16, width: self.width, height: middle },
            items: Area {
                x: self.x,
                y: (self.y + top + middle) as u16,
                width: self.width,
                height: (self.height - top - middle) as u16,
            },
        }
    }

    /// The area has rows for a pane of `top` rows, one of `middle` rows and
    /// one of at least `rest` rows, and its last row has a coordinate.
    pub open spec fn has_room(self, top: u16, middle: u16, rest: u16) -> bool {
        self.y + self.height <= u16::MAX && self.height >= top + middle + rest
    }

    /// The part of this area that lies in `bounds`. An area inside `bounds`
    /// is left as it is.
    pub fn clip(self, bounds: Area) -> (a: Area)
        ensures
            a == self.clipped(bounds),
            a.inside(bounds),
            self.inside(bounds) ==> a == self,
            self.x == bounds.x && self.width == bounds.width ==> a.x == bounds.x && a.width
                == bounds.width,
    {
        let (x, width) = clip_span(self.x, self.width, bounds.x, bounds.width);
        let (y, height) = clip_span(self.y, self.height, bounds.y, bounds.height);
        Area { x, y, width, height }
    }
}

/// Clipping leaves an area that lies inside the bounds as it is.
pub proof fn lemma_clipped_inside(a: Area, bounds: Area)
    requires
        a.inside(bounds),
    ensures
        a.clipped(bounds) == a,
{
}

/// Where an area has room, its stacked panes follow each other without a
/// gap and without overlap, lie inside it, and take all its rows between
/// them.
pub proof fn lemma_stacked_fills_area(area: Area, top: u16, middle: u16, rest: u16)
    requires
        area.has_room(top, middle, rest),
    ensures
        ({
            let p = area.stacked(top, middle);
            &&& p.help.inside(area) && p.input.inside(area) && p.items.inside(area)
            &&& p.help.y == area.y
            &&& p.input.y == p.help.bottom()
            &&& p.items.y == p.input.bottom()
            &&& p.items.bottom() == area.bottom()
            &&& p.help.height + p.input.height + p.items.height == area.height
            &&& p.items.height >= rest
        }),
{
}

/// The part of the span of `len` cells from `start` that lies in the span of
/// `bound_len` cells from `bound_start`, as its start and its length.
fn clip_span(start: u16, len: u16, bound_start: u16, bound_len: u16) -> (span: (u16, u16))
    ensures
        span.0 == nearest(start as int, bound_start as int, bound_start + bound_len),
        span.0 + span.1 == nearest(start + len, bound_start as int, bound_start + bound_len),
{
    let low: u32 = bound_start as u32;
    let high: u32 = bound_start as u32 + bound_len as u32;
    let from: u32 = nearest_of(start as u32, low, high);
    let to: u32 = nearest_of(start as u32 + len as u32, low, high);
    (from as u16, (to - from) as u16)
}

fn nearest_of(v: u32, low: u32, high: u32) -> (n: u32)
    requires
        low <= high,
    ensures
        n == nearest(v as int, low as int, high as int),
{
    if v < low {
        low
    } else if v > high {
        high
    } else {
        v
    }
}

/// The panes that the terminal library proposed, each cut down to the part
/// of it that lies in `area`.
pub fn fit(area: Area, proposed: Panes) -> (panes: Panes)
    ensures
        panes.help == proposed.help.clipped(area),
        panes.input == proposed.input.clipped(area),
        panes.items == proposed.items.clipped(area),
{
    Panes {
        help: proposed.help.clip(area),
        input: proposed.input.clip(area),
        items: proposed.items.clip(area),
    }
}

/// Splits `area` into the three panes. Each of them takes the columns of
/// `area` and none of them leaves it, so a frame never takes more rows than
/// `area` has. An area with room for all three is split into the help line
/// on its first row, the query box on the three rows below it and the list
/// on all the rows that are left. In a smaller area the terminal library
/// settles which rows each pane gets.
pub fn panes(area: Area) -> (panes: Panes)
    ensures
        panes.help.inside(area),
        panes.input.inside(area),
        panes.items.inside(area),
        panes.help.x == area.x && panes.help.width == area.width,
        panes.input.x == area.x && panes.input.width == area.width,
        panes.items.x == area.x && panes.items.width == area.width,
        area.has_room(HELP_ROWS, INPUT_ROWS, LIST_MIN_ROWS) ==> panes == area.stacked(
            HELP_ROWS,
            INPUT_ROWS,
        ),
{
    let proposed: Panes = split_rows(area, HELP_ROWS, INPUT_ROWS, LIST_MIN_ROWS);
    proof {
        if area.has_room(HELP_ROWS, INPUT_ROWS, LIST_MIN_ROWS) {
            lemma_stacked_fills_area(area, HELP_ROWS, INPUT_ROWS, LIST_MIN_ROWS);
            lemma_clipped_inside(proposed.help, area);
            lemma_clipped_inside(proposed.input, area);
            lemma_clipped_inside(proposed.items, area);
        }
    }
    fit(area, proposed)
}

/// Calls `Layout::vertical(..).areas(..)` of ratatui with three constraints:
/// a length of `top` rows, a length of `middle` rows and at least `rest`
/// rows.
///
/// The contract is taken on trust from that function. Each pane has the
/// column and the width of `area`. Where `area` has room for all three, the
/// first pane takes its first `top` rows, the second the `middle` rows below
/// them and the third all the rows that are left: the layout starts at the
/// top without gaps, and it holds the two lengths more strongly than it lets
/// the last pane grow. Nothing is said of the rows of a smaller area, where
/// the constraints pull against each other.
#[verifier::external_body]
fn split_rows(area: Area, top: u16, middle: u16, rest: u16) -> (panes: Panes)
    ensures
        panes.help.x == area.x && panes.help.width == area.width,
        panes.input.x == area.x && panes.input.width == area.width,
        panes.items.x == area.x && panes.items.width == area.width,
        area.has_room(top, middle, rest) ==> panes == area.stacked(top, middle),
{
    let rect = Rect { x: area.x, y: area.y, width: area.width, height: area.height };
    let constraints = [Constraint::Length(top), Constraint::Length(middle), Constraint::Min(rest)];
    let [help, input, items] = Layout::vertical(constraints)
        .areas::<3>(rect)
        .map(|r| Area { x: r.x, y: r.y, width: r.width, height: r.height });
    Panes { help, input, items }
}

} // verus!
