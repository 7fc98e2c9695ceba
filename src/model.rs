use vstd::prelude::*;

use crate::keys::{KeyCode, KeyEvent, MOD_CONTROL};

verus! {

/// How the panes of a window share its body: side by side in columns
/// (`Horizontal`) or stacked in rows (`Vertical`).
#[derive(Clone, Copy, Debug, PartialEq, Eq, Structural)]
pub enum LayoutKind {
    Horizontal,
    Vertical,
}

/// A group of panes shown together. `P` is whatever the host keeps per pane
/// (its PTY, child process and screen); the model only orders and selects them.
pub struct Window<P> {
    pub panes: Vec<P>,
    pub active_pane: usize,
    pub layout: LayoutKind,
}

impl<P> Window<P> {
    /// A live window: at least one pane, and the active one among them.
    pub open spec fn wf(&self) -> bool {
        &&& self.panes@.len() > 0
        &&& self.active_pane < self.panes@.len()
    }

    /// A window holding a single pane, laid out horizontally.
    pub fn new(pane: P) -> (w: Window<P>)
        ensures
            w.wf(),
            w.panes@ == seq![pane],
            w.active_pane == 0,
            w.layout == LayoutKind::Horizontal,
    {
        let mut panes: Vec<P> = Vec::new();
        panes.push(pane);
        Window { panes, active_pane: 0, layout: LayoutKind::Horizontal }
    }

    pub fn pane_count(&self) -> (n: usize)
        ensures
            n == self.panes@.len(),
    {
        self.panes.len()
    }
}


/// The input mode: what the next key press means.
pub enum Mode {
    /// Keys go to the active pane.
    Passthrough,
    /// The prefix was pressed at `armed_at` (milliseconds); the next key is a command.
    Prefix { armed_at: u64 },
    /// A command line is being typed.
    CommandPrompt { input: Vec<char> },
}

/// The text typed so far, when the mode is the command prompt.
pub open spec fn prompt_text(m: Mode) -> Option<Seq<char>> {
    match m {
        Mode::CommandPrompt { input } => Some(input@),
        _ => None,
    }
}

/// The whole model: the windows, which one is active, and the input mode.
pub struct AppState<P> {
    pub windows: Vec<Window<P>>,
    pub active_idx: usize,
    pub mode: Mode,
    pub escape_time_ms: u64,
    pub prefix_key: KeyEvent,
}

/// The window index after moving one forward, wrapping at the end.
pub open spec fn next_index(i: int, n: int) -> int {
    (i + 1) % n
}

/// The window index after moving one back, wrapping at the start.
pub open spec fn prev_index(i: int, n: int) -> int {
    (i + n - 1) % n
}

/// Where the active index `active` of a sequence of `len` entries lands
/// once the active entry is taken out: it stays, or falls back to the new
/// last entry when it would run past the end.
pub open spec fn clamp_after_remove(active: int, len: int) -> int {
    if active >= len - 1 {
        if len - 1 > 0 { len - 2 } else { 0 }
    } else {
        active
    }
}

/// How splitting the active window with `pane` changes the windows: the
/// pane is appended to the active window and becomes its active pane, and
/// the window takes layout `kind`. Other windows and the selection stay.
pub open spec fn split<P>(o: AppState<P>, f: AppState<P>, pane: P, kind: LayoutKind) -> bool {
    &&& f.active_idx == o.active_idx
    &&& f.windows@.len() == o.windows@.len()
    &&& forall|i: int|
        0 <= i < o.windows@.len() && i != o.active_idx ==> f.windows@[i] == o.windows@[i]
    &&& f.active_window().panes@ == o.active_window().panes@.push(pane)
    &&& f.active_window().active_pane == o.active_window().panes@.len()
    &&& f.active_window().layout == kind
}

/// How killing the active pane changes the windows: a window's last pane
/// stays and nothing is handed back; otherwise the active pane leaves the
/// active window, comes back in `r`, and the window's active index is
/// clamped to what is left. Other windows and the selection stay.
pub open spec fn killed<P>(o: AppState<P>, f: AppState<P>, r: Option<P>) -> bool {
    let w = o.active_window();
    let nw = f.active_window();
    &&& f.active_idx == o.active_idx
    &&& f.windows@.len() == o.windows@.len()
    &&& forall|i: int|
        0 <= i < o.windows@.len() && i != o.active_idx ==> f.windows@[i] == o.windows@[i]
    &&& w.panes@.len() <= 1 ==> r is None && f.windows@ == o.windows@
    &&& w.panes@.len() > 1 ==> {
        &&& r == Some(w.panes@[w.active_pane as int])
        &&& nw.panes@ == w.panes@.remove(w.active_pane as int)
        &&& nw.active_pane == clamp_after_remove(w.active_pane as int, w.panes@.len() as int)
        &&& nw.layout == w.layout
    }
}

/// The panes of `ps` whose flag in `ex` is not set, in order.
pub open spec fn kept<P>(ps: Seq<P>, ex: Seq<bool>) -> Seq<P>
    decreases ps.len(),
{
    if ps.len() == 0 {
        seq![]
    } else {
        let pre = kept(ps.drop_last(), ex);
        if ex[ps.len() - 1] {
            pre
        } else {
            pre.push(ps.last())
        }
    }
}

/// An index clamped into a sequence of `len` entries.
pub open spec fn clamp_index(i: int, len: int) -> int {
    if i < len {
        i
    } else if len > 0 {
        len - 1
    } else {
        0
    }
}

/// What the model sees of a window: its panes, active index and layout.
pub open spec fn window_view<P>(w: Window<P>) -> (Seq<P>, usize, LayoutKind) {
    (w.panes@, w.active_pane, w.layout)
}

/// The windows left after the panes flagged in `exs` are removed: each
/// keeps its other panes, with its active index clamped to them, and a
/// window left with no pane is gone.
pub open spec fn reaped<P>(ws: Seq<Window<P>>, exs: Seq<Seq<bool>>) -> Seq<(Seq<P>, usize, LayoutKind)>
    decreases ws.len(),
{
    if ws.len() == 0 {
        seq![]
    } else {
        let pre = reaped(ws.drop_last(), exs);
        let w = ws.last();
        let ps = kept(w.panes@, exs[ws.len() - 1]);
        if ps.len() == 0 {
            pre
        } else {
            pre.push((ps, clamp_index(w.active_pane as int, ps.len() as int) as usize, w.layout))
        }
    }
}

pub open spec fn flags_view(exs: Seq<Vec<bool>>) -> Seq<Seq<bool>> {
    exs.map_values(|e: Vec<bool>| e@)
}

impl<P> AppState<P> {
    /// Every window is live, and while any exists the active one is among them.
    pub open spec fn wf(&self) -> bool {
        &&& forall|i: int| 0 <= i < self.windows@.len() ==> (#[trigger] self.windows@[i]).wf()
        &&& self.windows@.len() > 0 ==> self.active_idx < self.windows@.len()
    }

    pub open spec fn active_window(&self) -> Window<P> {
        self.windows@[self.active_idx as int]
    }

    /// An empty session in passthrough mode, armed by control+B.
    pub fn new(escape_time_ms: u64) -> (s: AppState<P>)
        ensures
            s.wf(),
            s.windows@.len() == 0,
            s.active_idx == 0,
            s.mode is Passthrough,
            s.escape_time_ms == escape_time_ms,
            s.prefix_key == (KeyEvent { code: KeyCode::Char('b'), modifiers: MOD_CONTROL }),
    {
        AppState {
            windows: Vec::new(),
            active_idx: 0,
            mode: Mode::Passthrough,
            escape_time_ms,
            prefix_key: KeyEvent { code: KeyCode::Char('b'), modifiers: MOD_CONTROL },
        }
    }

    pub fn window_count(&self) -> (n: usize)
        ensures
            n == self.windows@.len(),
    {
        self.windows.len()
    }

    /// Appends a window holding `pane` and makes it the active one.
    pub fn create_window(&mut self, pane: P)
        requires
            old(self).wf(),
            old(self).windows@.len() < usize::MAX,
        ensures
            final(self).wf(),
            final(self).windows@.len() == old(self).windows@.len() + 1,
            final(self).windows@.take(old(self).windows@.len() as int) == old(self).windows@,
            final(self).windows@.last().panes@ == seq![pane],
            final(self).windows@.last().active_pane == 0,
            final(self).windows@.last().layout == LayoutKind::Horizontal,
            final(self).active_idx == old(self).windows@.len(),
            final(self).mode == old(self).mode,
            final(self).escape_time_ms == old(self).escape_time_ms,
            final(self).prefix_key == old(self).prefix_key,
    {
        let w = Window::new(pane);
        self.windows.push(w);
        self.active_idx = self.windows.len() - 1;
        assert(self.windows@.take(self.windows@.len() - 1) =~= old(self).windows@);
    }

    /// Appends `pane` to the active window, makes it that window's active
    /// pane, and sets the window's layout to `kind` (which reorients every
    /// pane already there).
    pub fn split_active(&mut self, pane: P, kind: LayoutKind)
        requires
            old(self).wf(),
            old(self).windows@.len() > 0,
            old(self).active_window().panes@.len() < usize::MAX,
        ensures
            final(self).wf(),
            split(*old(self), *final(self), pane, kind),
            final(self).mode == old(self).mode,
            final(self).escape_time_ms == old(self).escape_time_ms,
            final(self).prefix_key == old(self).prefix_key,
    {
        let i = self.active_idx;
        let mut w = self.windows.remove(i);
        w.panes.push(pane);
        w.active_pane = w.panes.len() - 1;
        w.layout = kind;
        self.windows.insert(i, w);
        assert forall|k: int|
            0 <= k < old(self).windows@.len() && k != i
                implies self.windows@[k] == old(self).windows@[k] by {}
        assert forall|k: int| 0 <= k < self.windows@.len() implies (#[trigger] self.windows@[k]).wf() by {
            if k != i {
                assert(self.windows@[k] == old(self).windows@[k]);
            }
        }
    }

    /// Removes the active pane of the active window and hands it back, so
    /// that its child can be stopped. A window's last pane is never killed
    /// this way: then nothing changes and `None` comes back.
    pub fn kill_active_pane(&mut self) -> (r: Option<P>)
        requires
            old(self).wf(),
            old(self).windows@.len() > 0,
        ensures
            final(self).wf(),
            final(self).active_idx == old(self).active_idx,
            final(self).windows@.len() == old(self).windows@.len(),
            forall|i: int|
                0 <= i < old(self).windows@.len() && i != old(self).active_idx
                    ==> final(self).windows@[i] == old(self).windows@[i],
            final(self).mode == old(self).mode,
            final(self).escape_time_ms == old(self).escape_time_ms,
            final(self).prefix_key == old(self).prefix_key,
            killed(*old(self), *final(self), r),
    {
        let i = self.active_idx;
        if self.windows[i].panes.len() <= 1 {
            assert(self.windows@ =~= old(self).windows@);
            return None;
        }
        let mut w = self.windows.remove(i);
        let ap = w.active_pane;
        let p = w.panes.remove(ap);
        if w.active_pane >= w.panes.len() {
            w.active_pane = w.panes.len() - 1;
        }
        self.windows.insert(i, w);
        assert forall|k: int|
            0 <= k < old(self).windows@.len() && k != i
                implies self.windows@[k] == old(self).windows@[k] by {}
        assert forall|k: int| 0 <= k < self.windows@.len() implies (#[trigger] self.windows@[k]).wf() by {
            if k != i {
                assert(self.windows@[k] == old(self).windows@[k]);
            }
        }
        Some(p)
    }

    /// Makes the next window active, wrapping from the last to the first.
    pub fn next_window(&mut self)
        requires
            old(self).wf(),
        ensures
            final(self).wf(),
            final(self).windows == old(self).windows,
            old(self).windows@.len() > 0 ==> final(self).active_idx == next_index(
                old(self).active_idx as int,
                old(self).windows@.len() as int,
            ),
            old(self).windows@.len() == 0 ==> final(self).active_idx == old(self).active_idx,
            final(self).mode == old(self).mode,
            final(self).escape_time_ms == old(self).escape_time_ms,
            final(self).prefix_key == old(self).prefix_key,
    {
        let n = self.windows.len();
        if n > 0 {
            self.active_idx = (self.active_idx + 1) % n;
        }
    }

    /// Makes the previous window active, wrapping from the first to the last.
    pub fn prev_window(&mut self)
        requires
            old(self).wf(),
        ensures
            final(self).wf(),
            final(self).windows == old(self).windows,
            old(self).windows@.len() > 0 ==> final(self).active_idx == prev_index(
                old(self).active_idx as int,
                old(self).windows@.len() as int,
            ),
            old(self).windows@.len() == 0 ==> final(self).active_idx == old(self).active_idx,
            final(self).mode == old(self).mode,
            final(self).escape_time_ms == old(self).escape_time_ms,
            final(self).prefix_key == old(self).prefix_key,
    {
        let n = self.windows.len();
        if n > 0 {
            let i = self.active_idx;
            self.active_idx = if i == 0 { n - 1 } else { i - 1 };
            proof {
                vstd::arithmetic::div_mod::lemma_mod_add_multiples_vanish(i - 1, n as int);
                vstd::arithmetic::div_mod::lemma_small_mod((n - 1) as nat, n as nat);
                if i > 0 {
                    vstd::arithmetic::div_mod::lemma_small_mod((i - 1) as nat, n as nat);
                }
            }
        }
    }

    /// Makes window number `n` (counted from 1) active; a number out of
    /// range changes nothing.
    pub fn select_window(&mut self, n: usize)
        requires
            old(self).wf(),
        ensures
            final(self).wf(),
            final(self).windows == old(self).windows,
            final(self).active_idx == if 1 <= n <= old(self).windows@.len() {
                (n - 1) as usize
            } else {
                old(self).active_idx
            },
            final(self).mode == old(self).mode,
            final(self).escape_time_ms == old(self).escape_time_ms,
            final(self).prefix_key == old(self).prefix_key,
    {
        if n > 0 && n <= self.windows.len() {
            self.active_idx = n - 1;
        }
    }

    /// Removes every pane whose child has exited (`exited[i][j]` for pane
    /// `j` of window `i`), and every window left without a pane. Each
    /// window's active pane, and the active window, are clamped to what is
    /// left. Returns whether no window is left.
    pub fn reap(&mut self, exited: &Vec<Vec<bool>>) -> (empty: bool)
        requires
            old(self).wf(),
            exited@.len() == old(self).windows@.len(),
            forall|i: int|
                0 <= i < exited@.len() ==> (#[trigger] exited@[i])@.len()
                    == old(self).windows@[i].panes@.len(),
        ensures
            final(self).wf(),
            final(self).windows@.map_values(|w: Window<P>| window_view(w)) == reaped(
                old(self).windows@,
                flags_view(exited@),
            ),
            final(self).active_idx == clamp_index(
                old(self).active_idx as int,
                final(self).windows@.len() as int,
            ),
            empty == (final(self).windows@.len() == 0),
            final(self).mode == old(self).mode,
            final(self).escape_time_ms == old(self).escape_time_ms,
            final(self).prefix_key == old(self).prefix_key,
    {
        let ghost exs = flags_view(exited@);
        let mut rest: Vec<Window<P>> = Vec::new();
        std::mem::swap(&mut rest, &mut self.windows);
        let ghost orig = rest@;
        let n = rest.len();
        let mut out: Vec<Window<P>> = Vec::new();
        let mut i: usize = 0;
        while i < n
            invariant
                n == orig.len(),
                i <= n,
                rest@ == orig.skip(i as int),
                exited@.len() == n,
                exs == flags_view(exited@),
                forall|k: int|
                    0 <= k < exited@.len() ==> (#[trigger] exited@[k])@.len() == orig[k].panes@.len(),
                forall|k: int| 0 <= k < out@.len() ==> (#[trigger] out@[k]).wf(),
                out@.map_values(|w: Window<P>| window_view(w)) == reaped(orig.take(i as int), exs),
            decreases n - i,
        {
            let w = rest.remove(0);
            assert(w == orig[i as int]);
            let Window { panes, active_pane, layout } = w;
            let flags = &exited[i];
            assert(flags@ == exs[i as int]);
            let mut src = panes;
            let ghost ps = src@;
            let m = src.len();
            let mut keep: Vec<P> = Vec::new();
            let mut j: usize = 0;
            while j < m
                invariant
                    m == ps.len(),
                    j <= m,
                    src@ == ps.skip(j as int),
                    flags@.len() == m,
                    keep@ == kept(ps.take(j as int), flags@),
                decreases m - j,
            {
                let p = src.remove(0);
                assert(ps.take(j as int + 1).drop_last() =~= ps.take(j as int));
                if !flags[j] {
                    keep.push(p);
                }
                j = j + 1;
                assert(src@ =~= ps.skip(j as int));
            }
            assert(ps.take(m as int) =~= ps);
            let ghost before = out@;
            let ghost pre_t = orig.take(i as int);
            let ghost t = orig.take(i as int + 1);
            assert(t.drop_last() =~= pre_t);
            assert(t.last() == orig[i as int]);
            if keep.len() > 0 {
                let ap = if active_pane < keep.len() { active_pane } else { keep.len() - 1 };
                out.push(Window { panes: keep, active_pane: ap, layout });
                assert(out@.map_values(|w: Window<P>| window_view(w)) =~= before.map_values(
                    |w: Window<P>| window_view(w),
                ).push(window_view(out@.last())));
            }
            i = i + 1;
            assert(rest@ =~= orig.skip(i as int));
        }
        assert(orig.take(n as int) =~= orig);
        let len = out.len();
        self.windows = out;
        if self.active_idx >= len {
            self.active_idx = if len > 0 { len - 1 } else { 0 };
        }
        len == 0
    }

} // impl AppState

} // verus!
