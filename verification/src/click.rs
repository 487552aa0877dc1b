//! Double-click timing and the drag flag.
//!
//! The tracker records the last two primary-button-down times. On
//! button-up, a capture is triggered when the two downs fell within the
//! double-click window, or when the press dragged.

use vstd::prelude::*;

verus! {

/// Two primary-button downs closer than this many milliseconds count as a
/// double click.
pub const DOUBLE_CLICK_MILLIS: i64 = 500;

/// The last two primary-button-down timestamps and whether the current
/// press has dragged. Written only from the monitor's callback thread.
#[derive(Clone, Copy, PartialEq, Eq, Structural)]
pub struct ClickTracker {
    /// When the previous primary-button-down happened, in Unix milliseconds.
    pub prev_down_ms: i64,
    /// When the latest primary-button-down happened, in Unix milliseconds.
    pub cur_down_ms: i64,
    /// Whether the pointer has dragged since the latest button-down.
    pub dragging: bool,
}

/// Whether two down timestamps fall within the double-click window.
pub open spec fn double_click(prev_ms: i64, cur_ms: i64) -> bool {
    cur_ms - prev_ms < DOUBLE_CLICK_MILLIS
}

impl ClickTracker {
    /// Timestamps are clock readings, so they are never negative.
    pub open spec fn wf(self) -> bool {
        0 <= self.prev_down_ms && 0 <= self.cur_down_ms
    }

    /// A tracker as it stands at process start: no clicks seen yet.
    pub fn new() -> (t: Self)
        ensures
            t == (ClickTracker { prev_down_ms: 0, cur_down_ms: 0, dragging: false }),
    {
        ClickTracker { prev_down_ms: 0, cur_down_ms: 0, dragging: false }
    }
}

/// Record a primary-button-down: the latest down time becomes the previous
/// one, and `now_ms` becomes the latest.
pub fn record_click_time(t: &mut ClickTracker, now_ms: i64)
    requires
        old(t).wf(),
        0 <= now_ms,
    ensures
        final(t).wf(),
        final(t).prev_down_ms == old(t).cur_down_ms,
        final(t).cur_down_ms == now_ms,
        final(t).dragging == old(t).dragging,
{
    t.prev_down_ms = t.cur_down_ms;
    t.cur_down_ms = now_ms;
}

/// Whether the last two downs form a double click. Purely time-based: two
/// fast clicks count even when they landed in unrelated places.
pub fn is_double_click(t: &ClickTracker) -> (r: bool)
    requires
        t.wf(),
    ensures
        r == double_click(t.prev_down_ms, t.cur_down_ms),
{
    t.cur_down_ms - t.prev_down_ms < DOUBLE_CLICK_MILLIS
}

} // verus!
