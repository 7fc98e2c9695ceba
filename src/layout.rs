use vstd::prelude::*;

use ratatui::layout::{Constraint, Direction, Layout, Rect};
use ratatui::widgets::{Block, Borders};

use crate::geometry::{fit_size, fitted, pane_percent};
use crate::model::LayoutKind;

verus! {

/// A rectangle of the host terminal, in cells.
#[derive(Clone, Copy, Debug, PartialEq, Eq, Structural)]
pub struct Area {
    pub x: u16,
    pub y: u16,
    pub width: u16,
    pub height: u16,
}

/// What ratatui's layout solver gives for `n` equal percentage slices of
/// `area` along the axis of `kind`.
pub uninterp spec fn percent_slices(area: Area, kind: LayoutKind, percent: u16, n: nat) -> Seq<Area>;

/// What ratatui's layout solver gives for a vertical split of `area` into a
/// part of at least `min` rows above a part of `len` rows.
pub uninterp spec fn min_then_length(area: Area, min: u16, len: u16) -> Seq<Area>;

/// A rectangle cut from `area` by a vertical split: it keeps the area's
/// columns and lies within its rows.
pub open spec fn vertical_part(area: Area, part: Area) -> bool {
    &&& part.x == area.x
    &&& part.width == area.width
    &&& area.y <= part.y
    &&& part.y + part.height <= area.y + area.height
}

/// A slice cut from `area` along the axis of `kind`: it keeps the area's
/// rows (side by side) or its columns (stacked).
pub open spec fn slice_of(area: Area, kind: LayoutKind, part: Area) -> bool {
    match kind {
        LayoutKind::Horizontal => part.y == area.y && part.height == area.height,
        LayoutKind::Vertical => part.x == area.x && part.width == area.width,
    }
}

/// Relies on ratatui's `Layout::split` with `n` constraints
/// `Percentage(percent)` along one axis: one rectangle per constraint, each
/// keeping the area's extent across that axis. Equal shares have a single
/// best split, so the result depends on the arguments alone.
#[verifier::external_body]
fn split_percent(area: Area, kind: LayoutKind, percent: u16, n: usize) -> (r: Vec<Area>)
    ensures
        r@ == percent_slices(area, kind, percent, n as nat),
        r@.len() == n,
        forall|i: int| 0 <= i < n ==> slice_of(area, kind, #[trigger] r@[i]),
{
    let dir = match kind {
        LayoutKind::Horizontal => Direction::Horizontal,
        LayoutKind::Vertical => Direction::Vertical,
    };
    let rect = Rect { x: area.x, y: area.y, width: area.width, height: area.height };
    let parts = Layout::default().direction(dir).constraints(vec![Constraint::Percentage(percent); n]).split(rect);
    parts.iter().map(|r| Area { x: r.x, y: r.y, width: r.width, height: r.height }).collect()
}

/// Relies on ratatui's `Layout::split` with the vertical constraints
/// `Min(min)`, `Length(len)`: one rectangle per constraint, each keeping
/// the area's columns. The best split is unique.
#[verifier::external_body]
fn split_min_length(area: Area, min: u16, len: u16) -> (r: Vec<Area>)
    ensures
        r@ == min_then_length(area, min, len),
        r@.len() == 2,
        r@[0].x == area.x && r@[0].width == area.width,
        r@[1].x == area.x && r@[1].width == area.width,
        min == 1 && len == 1 && area.height >= 2 && area.y + area.height <= u16::MAX ==> {
            &&& r@[0].y == area.y && r@[0].height == area.height - 1
            &&& r@[1].y == area.y + area.height - 1 && r@[1].height == 1
        },
{
    let rect = Rect { x: area.x, y: area.y, width: area.width, height: area.height };
    let cs = [Constraint::Min(min), Constraint::Length(len)];
    let parts = Layout::default().direction(Direction::Vertical).constraints(cs).split(rect);
    parts.iter().map(|r| Area { x: r.x, y: r.y, width: r.width, height: r.height }).collect()
}

/// Relies on ratatui's `Layout::split` with the vertical constraints
/// `Percentage(percent)`, `Length(len)`, `Percentage(percent)`: one
/// rectangle per constraint, each keeping the area's columns and lying
/// within its rows. The length constraint is weighted ten times a
/// percentage, so where it fits the middle band gets exactly `len` rows.
/// The percentages conflict, and the solver may break that tie differently
/// from one process to the next, so where the bands start is not promised.
#[verifier::external_body]
fn split_bands(area: Area, percent: u16, len: u16) -> (r: Vec<Area>)
    ensures
        r@.len() == 3,
        forall|i: int| 0 <= i < 3 ==> vertical_part(area, #[trigger] r@[i]),
        len <= area.height && area.y + area.height <= u16::MAX ==> r@[1].height == len,
{
    let rect = Rect { x: area.x, y: area.y, width: area.width, height: area.height };
    let cs = [Constraint::Percentage(percent), Constraint::Length(len), Constraint::Percentage(percent)];
    let parts = Layout::default().direction(Direction::Vertical).constraints(cs).split(rect);
    parts.iter().map(|r| Area { x: r.x, y: r.y, width: r.width, height: r.height }).collect()
}

/// The inside of a frame drawn with borders on all four sides: one cell in
/// from the left and the top (never past the far edge), two cells narrower
/// and lower, down to nothing.
pub open spec fn framed(a: Area) -> Area {
    let right = if a.x + a.width > u16::MAX { u16::MAX as int } else { a.x + a.width };
    let bottom = if a.y + a.height > u16::MAX { u16::MAX as int } else { a.y + a.height };
    let x1 = if a.x + 1 > u16::MAX { u16::MAX as int } else { a.x + 1 };
    let y1 = if a.y + 1 > u16::MAX { u16::MAX as int } else { a.y + 1 };
    Area {
        x: (if x1 < right { x1 } else { right }) as u16,
        y: (if y1 < bottom { y1 } else { bottom }) as u16,
        width: (if a.width >= 2 { a.width - 2 } else { 0 }) as u16,
        height: (if a.height >= 2 { a.height - 2 } else { 0 }) as u16,
    }
}

/// Relies on ratatui's `Block::inner` for a block with all borders and no
/// padding (a title on the top border takes no more room).
#[verifier::external_body]
fn frame_inside(outer: Area) -> (r: Area)
    ensures
        r == framed(outer),
{
    let rect = Rect { x: outer.x, y: outer.y, width: outer.width, height: outer.height };
    let r = Block::default().borders(Borders::ALL).inner(rect);
    Area { x: r.x, y: r.y, width: r.width, height: r.height }
}

/// The inside of a pane's frame, and the rows and columns its terminal
/// gets there: those of the inside, at least one of each.
pub fn pane_frame(outer: Area) -> (r: (Area, u16, u16))
    ensures
        r.0 == framed(outer),
        r.1 == fitted(r.0.height),
        r.2 == fitted(r.0.width),
        r.1 >= 1 && r.2 >= 1,
{
    let inner = frame_inside(outer);
    let (rows, cols) = fit_size(inner.height, inner.width);
    (inner, rows, cols)
}

/// The rectangles of the active window's panes inside the body: equal
/// slices of `100 / n` percent each, side by side for a horizontal layout
/// and stacked for a vertical one. At least one slice is made.
pub fn pane_areas(body: Area, kind: LayoutKind, n: usize) -> (r: Vec<Area>)
    ensures
        r@ == percent_slices(
            body,
            kind,
            (100int / (if n == 0 { 1int } else { n as int })) as u16,
            if n == 0 { 1 } else { n as nat },
        ),
        r@.len() == if n == 0 { 1 } else { n },
        forall|i: int| 0 <= i < r@.len() ==> slice_of(body, kind, #[trigger] r@[i]),
{
    let m: usize = if n == 0 { 1 } else { n };
    let percent = pane_percent(m);
    split_percent(body, kind, percent, m)
}

/// Splits the host screen into the body, at least one row, and the
/// one-row status bar below it: the last row, once there are two.
pub fn screen_areas(screen: Area) -> (r: (Area, Area))
    ensures
        r.0 == min_then_length(screen, 1, 1)[0],
        r.1 == min_then_length(screen, 1, 1)[1],
        r.0.x == screen.x && r.0.width == screen.width,
        r.1.x == screen.x && r.1.width == screen.width,
        screen.height >= 2 && screen.y + screen.height <= u16::MAX ==> {
            &&& r.0 == Area { x: screen.x, y: screen.y, width: screen.width, height: (screen.height - 1) as u16 }
            &&& r.1 == Area { x: screen.x, y: (screen.y + screen.height - 1) as u16, width: screen.width, height: 1 }
        },
{
    let parts = split_min_length(screen, 1, 1);
    (parts[0], parts[1])
}

/// The command overlay: `height` rows across the middle of `screen`,
/// `percent_x` of its width, centred across it. Its first column is
/// `screen.x + (screen.width - width) / 2`; only where that would pass the
/// last column a terminal can address (`screen.x + screen.width` beyond
/// `u16::MAX`) does it stop there. Where the screen has room for it, the
/// overlay lies wholly inside the screen.
pub fn centered_rect(percent_x: u16, height: u16, screen: Area) -> (r: Area)
    requires
        percent_x <= 100,
    ensures
        r.width == screen.width * percent_x / 100,
        r.x == (if screen.x + (screen.width - r.width) / 2 > u16::MAX {
            u16::MAX as int
        } else {
            screen.x + (screen.width - r.width) / 2
        }),
        r.height == height,
        screen.y <= r.y <= screen.y + screen.height,
        height <= screen.height && screen.y + screen.height <= u16::MAX ==> r.y + height
            <= screen.y + screen.height,
{
    let bands = split_bands(screen, 50, height);
    let m = bands[1];
    assert(vertical_part(screen, bands@[1]));
    let (x, width) = crate::geometry::centered_span(m.x, m.width, percent_x);
    Area { x, y: m.y, width, height }
}

} // verus!
