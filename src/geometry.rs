use vstd::prelude::*;

verus! {

/// The size a pane's terminal gets from the inside of its frame: the same
/// rows and columns, but never fewer than one of each.
pub open spec fn fitted(n: u16) -> u16 {
    if n == 0 { 1 } else { n }
}

/// The terminal size for a pane whose framed inside is `rows` by `cols`.
pub fn fit_size(rows: u16, cols: u16) -> (r: (u16, u16))
    ensures
        r == (fitted(rows), fitted(cols)),
        r.0 >= 1 && r.1 >= 1,
{
    (if rows == 0 { 1 } else { rows }, if cols == 0 { 1 } else { cols })
}

/// The size last applied to a pane's PTY and screen.
#[derive(Clone, Copy, Debug, PartialEq, Eq, Structural)]
pub struct PaneSize {
    pub rows: u16,
    pub cols: u16,
}

/// What snapping a recorded size `o` to `rows` by `cols` does: the record
/// becomes `f`, and `changed` tells whether a resize is due.
pub open spec fn snapped(o: PaneSize, f: PaneSize, rows: u16, cols: u16, changed: bool) -> bool {
    &&& f == PaneSize { rows, cols }
    &&& changed == (o.rows != rows || o.cols != cols)
}

impl PaneSize {
    /// Snaps the recorded size to the one the layout now gives the pane.
    /// Returns whether it changed, that is whether the PTY and the screen
    /// must be resized to `rows` by `cols`.
    pub fn snap(&mut self, rows: u16, cols: u16) -> (changed: bool)
        ensures
            snapped(*old(self), *final(self), rows, cols, changed),
    {
        if self.rows != rows || self.cols != cols {
            self.rows = rows;
            self.cols = cols;
            true
        } else {
            false
        }
    }
}

/// The least time, in milliseconds, between two host resizes applied to
/// the active pane.
pub const RESIZE_DEBOUNCE_MS: u64 = 50;

/// Takes a host-terminal resize to `rows` by `cols` at time `now_ms`. It is
/// applied only when at least `RESIZE_DEBOUNCE_MS` have passed since the
/// last one applied (at `*last_ms`); then the active pane's record becomes
/// that size, so that the next render sees the drift from its frame and
/// snaps the pane back, and the time is kept. Returns whether the PTY and
/// the screen are to be resized to `rows` by `cols`.
pub fn take_host_resize(size: &mut PaneSize, last_ms: &mut u64, now_ms: u64, rows: u16, cols: u16) -> (applied: bool)
    ensures
        applied == (now_ms >= *old(last_ms) + RESIZE_DEBOUNCE_MS),
        applied ==> *final(size) == (PaneSize { rows, cols }) && *final(last_ms) == now_ms,
        !applied ==> *final(size) == *old(size) && *final(last_ms) == *old(last_ms),
{
    if now_ms >= *last_ms && now_ms - *last_ms >= RESIZE_DEBOUNCE_MS {
        size.rows = rows;
        size.cols = cols;
        *last_ms = now_ms;
        true
    } else {
        false
    }
}

/// Where the host cursor goes for a pane whose inside starts at column `x`,
/// row `y` and is `rows` by `cols`: the screen's cursor, clamped into the
/// inside. Returns (column, row).
pub fn cursor_position(x: u16, y: u16, rows: u16, cols: u16, cur_row: u16, cur_col: u16) -> (r: (
    u16,
    u16,
))
    requires
        rows >= 1,
        cols >= 1,
        x + cols <= u16::MAX,
        y + rows <= u16::MAX,
    ensures
        r.0 == x + (if cur_col < cols { cur_col } else { (cols - 1) as u16 }),
        r.1 == y + (if cur_row < rows { cur_row } else { (rows - 1) as u16 }),
        x <= r.0 < x + cols,
        y <= r.1 < y + rows,
{
    let cc: u16 = if cur_col < cols - 1 { cur_col } else { cols - 1 };
    let cr: u16 = if cur_row < rows - 1 { cur_row } else { rows - 1 };
    (x + cc, y + cr)
}

/// The percentage of the body that each of `n` panes gets.
pub fn pane_percent(n: usize) -> (p: u16)
    ensures
        p == 100int / (if n == 0 { 1int } else { n as int }),
        1 <= n <= 100 ==> p >= 1,
{
    let m: usize = if n == 0 { 1 } else { n };
    assert(1 <= m <= 100 ==> 100int / (m as int) >= 1) by (nonlinear_arith);
    (100 / m) as u16
}

/// The prompt overlay's columns inside a band that starts at `x` and is
/// `width` wide: `percent` of the width, centred (the start stops at the
/// last column). Returns (start, width).
pub fn centered_span(x: u16, width: u16, percent: u16) -> (r: (u16, u16))
    requires
        percent <= 100,
    ensures
        r.1 == width * percent / 100,
        r.0 == if x + (width - r.1) / 2 > u16::MAX {
            u16::MAX as int
        } else {
            x + (width - r.1) / 2
        },
        r.1 <= width,
{
    assert((width as u32) * (percent as u32) <= 65535 * 100) by (nonlinear_arith)
        requires
            percent <= 100,
    ;
    let w: u32 = (width as u32) * (percent as u32) / 100;
    assert(w <= width) by (nonlinear_arith)
        requires
            w == (width as u32) * (percent as u32) / 100,
            percent <= 100,
    ;
    let w = w as u16;
    (x.saturating_add((width - w) / 2), w)
}

} // verus!
