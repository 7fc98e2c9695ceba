use vstd::prelude::*;

use crate::geometry::{PaneSize, fitted, snapped};
use crate::input::{Effect, is_quit, key_step, same_model};
use crate::keys::{KeyCode, KeyEvent, MOD_CONTROL, utf8_of};
use crate::model::{AppState, LayoutKind, Mode, killed, next_index, split};

verus! {

/// The prefix state lasts one key: whatever key comes next, the mode after
/// it is no longer the prefix (control+Q ends the session instead).
pub proof fn prefix_is_one_shot<P>(o: AppState<P>, f: AppState<P>, key: KeyEvent, now_ms: u64, r: Effect<P>)
    requires
        o.mode is Prefix,
        !is_quit(key),
        key_step(o, f, key, now_ms, r),
    ensures
        !(f.mode is Prefix),
{
}

/// A key after the prefix never writes to a pane, however late it comes:
/// the prefix byte is never sent on, and neither is the key.
pub proof fn prefix_never_writes<P>(o: AppState<P>, f: AppState<P>, key: KeyEvent, now_ms: u64, r: Effect<P>)
    requires
        o.mode is Prefix,
        key_step(o, f, key, now_ms, r),
    ensures
        !(r is Write),
{
}

/// With the prefix on control+B, a character typed in passthrough mode
/// without modifiers (other than a raw 0x02) goes to the active pane as its
/// UTF-8 bytes; the windows, the selection and the mode stay.
pub proof fn plain_keys_are_forwarded<P>(
    o: AppState<P>,
    f: AppState<P>,
    c: char,
    now_ms: u64,
    r: Effect<P>,
)
    requires
        o.mode is Passthrough,
        o.prefix_key == (KeyEvent { code: KeyCode::Char('b'), modifiers: MOD_CONTROL }),
        c != '\u{2}',
        key_step(o, f, KeyEvent { code: KeyCode::Char(c), modifiers: 0 }, now_ms, r),
    ensures
        r matches Effect::Write(v) && v@ == utf8_of(c),
        same_model(o, f),
        f.mode is Passthrough,
{
    assert(0u8 & MOD_CONTROL == 0) by (bit_vector);
}

/// `n` after the prefix moves to the next window, wrapping at the end, and
/// leaves the windows as they were.
pub proof fn prefix_n_moves_forward<P>(o: AppState<P>, f: AppState<P>, key: KeyEvent, now_ms: u64, r: Effect<P>)
    requires
        o.mode is Prefix,
        key.code == KeyCode::Char('n'),
        !is_quit(key),
        key_step(o, f, key, now_ms, r),
    ensures
        f.windows == o.windows,
        f.active_idx == next_index(o.active_idx as int, o.windows@.len() as int),
        f.mode is Passthrough,
{
}

/// A digit after the prefix that is larger than the number of windows
/// leaves the active window as it was.
pub proof fn digit_out_of_range_keeps_window<P>(
    o: AppState<P>,
    f: AppState<P>,
    key: KeyEvent,
    now_ms: u64,
    r: Effect<P>,
)
    requires
        o.mode is Prefix,
        !is_quit(key),
        key.code matches KeyCode::Char(c) && '0' <= c <= '9' && (c as u32 - '0' as u32)
            > o.windows@.len(),
        key_step(o, f, key, now_ms, r),
    ensures
        f.active_idx == o.active_idx,
        f.windows == o.windows,
{
}

/// Splitting the active window and then killing its active pane leaves the
/// window with as many panes as before.
pub proof fn split_then_kill_restores_count<P>(
    o: AppState<P>,
    m: AppState<P>,
    f: AppState<P>,
    pane: P,
    kind: LayoutKind,
    r: Option<P>,
)
    requires
        o.wf(),
        o.windows@.len() > 0,
        split(o, m, pane, kind),
        killed(m, f, r),
    ensures
        f.active_idx == o.active_idx,
        f.active_window().panes@.len() == o.active_window().panes@.len(),
        r == Some(pane),
{
    assert(o.active_window().wf());
    assert(m.active_window().panes@.last() == pane);
}

/// Killing the active pane leaves the active index on the same position,
/// or on the new last pane when the killed one was last.
pub proof fn kill_clamps_active_pane<P>(o: AppState<P>, f: AppState<P>, p: P)
    requires
        o.wf(),
        o.windows@.len() > 0,
        killed(o, f, Some(p)),
    ensures
        ({
            let ap = o.active_window().active_pane;
            let n = f.active_window().panes@.len();
            &&& f.active_window().active_pane < n
            &&& ap < n ==> f.active_window().active_pane == ap
            &&& ap >= n ==> f.active_window().active_pane == n - 1
        }),
{
    assert(o.active_window().wf());
}

/// The active index after moving forward `k` times among `n` windows.
pub open spec fn next_times(i: int, n: int, k: nat) -> int
    decreases k,
{
    if k == 0 {
        i
    } else {
        next_index(next_times(i, n, (k - 1) as nat), n)
    }
}

proof fn next_times_is_sum(i: int, n: int, k: nat)
    requires
        0 <= i < n,
    ensures
        next_times(i, n, k) == (i + k) % n,
    decreases k,
{
    if k > 0 {
        next_times_is_sum(i, n, (k - 1) as nat);
        vstd::arithmetic::div_mod::lemma_add_mod_noop_right(1, i + k - 1, n);
        assert(1 + (i + k - 1) == i + k);
        assert(((i + k - 1) % n) + 1 == 1 + ((i + k - 1) % n));
    } else {
        vstd::arithmetic::div_mod::lemma_small_mod(i as nat, n as nat);
    }
}

/// Moving to the next window as many times as there are windows comes back
/// to the window it started from.
pub proof fn next_window_cycles(i: int, n: int)
    requires
        0 <= i < n,
    ensures
        next_times(i, n, n as nat) == i,
{
    next_times_is_sum(i, n, n as nat);
    vstd::arithmetic::div_mod::lemma_mod_add_multiples_vanish(i, n);
    vstd::arithmetic::div_mod::lemma_small_mod(i as nat, n as nat);
}

/// After a pane is snapped to the inside of its frame, its recorded size is
/// that inside, at least one row and one column even where the inside has
/// none; a second snap to the same inside asks for no resize.
pub proof fn snap_settles(
    o: PaneSize,
    m: PaneSize,
    f: PaneSize,
    inner_rows: u16,
    inner_cols: u16,
    first: bool,
    second: bool,
)
    requires
        snapped(o, m, fitted(inner_rows), fitted(inner_cols), first),
        snapped(m, f, fitted(inner_rows), fitted(inner_cols), second),
    ensures
        m.rows == fitted(inner_rows) && m.cols == fitted(inner_cols),
        m.rows >= 1 && m.cols >= 1,
        inner_rows >= 1 ==> m.rows == inner_rows,
        inner_cols >= 1 ==> m.cols == inner_cols,
        !second,
        f == m,
{
}

} // verus!
