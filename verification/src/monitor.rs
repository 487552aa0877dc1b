//! Dispatch of observed pointer events.
//!
//! The global input monitor observes four kinds of pointer event
//! session-wide and hands each one, on its own thread, to the dispatcher
//! here. The dispatcher is the click/drag state machine: it updates the
//! click tracker and says which protocol, if any, the event triggers.

use vstd::prelude::*;
use crate::click::{double_click, record_click_time, ClickTracker};

verus! {

/// A pointer event as the monitor reports it, reduced to what the engine
/// reads: the kind, the down time of a primary press, and the screen
/// point of a secondary press (rounded to whole pixels).
#[derive(Clone, Copy, PartialEq, Eq, Structural)]
pub enum PointerEvent {
    /// Primary button pressed at the given Unix-millisecond time.
    PrimaryDown { at_ms: i64 },
    /// Pointer dragged while the primary button is down.
    PrimaryDragged,
    /// Primary button released.
    PrimaryUp,
    /// Secondary (paste-trigger) button pressed at a screen point.
    SecondaryDown { x: i64, y: i64 },
    /// Any other observed event; ignored.
    Other,
}

/// What an event asks the caller to run next.
#[derive(Clone, Copy, PartialEq, Eq, Structural)]
pub enum Reaction {
    /// Nothing to do.
    Ignore,
    /// Run the capture protocol.
    Capture,
    /// Run the paste protocol at the given screen point.
    Paste { x: i64, y: i64 },
}

/// The click/drag state machine, as one transition: from a tracker and an
/// event to the next tracker and the triggered reaction.
///
/// - primary-down records the down time;
/// - a drag raises the drag flag;
/// - primary-up triggers a capture when the press was a double click or a
///   drag, and always lowers the drag flag;
/// - secondary-down triggers a paste, unless pastes are suppressed.
pub open spec fn dispatch_model(t: ClickTracker, ev: PointerEvent, dont_paste: bool) -> (
    ClickTracker,
    Reaction,
) {
    match ev {
        PointerEvent::PrimaryDown { at_ms } => (
            ClickTracker { prev_down_ms: t.cur_down_ms, cur_down_ms: at_ms, dragging: t.dragging },
            Reaction::Ignore,
        ),
        PointerEvent::PrimaryDragged => (
            ClickTracker { prev_down_ms: t.prev_down_ms, cur_down_ms: t.cur_down_ms, dragging: true },
            Reaction::Ignore,
        ),
        PointerEvent::PrimaryUp => (
            ClickTracker {
                prev_down_ms: t.prev_down_ms,
                cur_down_ms: t.cur_down_ms,
                dragging: false,
            },
            if double_click(t.prev_down_ms, t.cur_down_ms) || t.dragging {
                Reaction::Capture
            } else {
                Reaction::Ignore
            },
        ),
        PointerEvent::SecondaryDown { x, y } => (
            t,
            if dont_paste {
                Reaction::Ignore
            } else {
                Reaction::Paste { x, y }
            },
        ),
        PointerEvent::Other => (t, Reaction::Ignore),
    }
}

/// Handle one observed pointer event: update the tracker and return the
/// reaction, exactly as `dispatch_model` says.
pub fn on_pointer_event(t: &mut ClickTracker, ev: PointerEvent, dont_paste: bool) -> (r: Reaction)
    requires
        old(t).wf(),
        ev matches PointerEvent::PrimaryDown { at_ms } ==> 0 <= at_ms,
    ensures
        final(t).wf(),
        (*final(t), r) == dispatch_model(*old(t), ev, dont_paste),
{
    match ev {
        PointerEvent::PrimaryDown { at_ms } => {
            record_click_time(t, at_ms);
            Reaction::Ignore
        },
        PointerEvent::PrimaryDragged => {
            t.dragging = true;
            Reaction::Ignore
        },
        PointerEvent::PrimaryUp => {
            let was_double = crate::click::is_double_click(t);
            let was_dragging = t.dragging;
            t.dragging = false;
            if was_double || was_dragging {
                Reaction::Capture
            } else {
                Reaction::Ignore
            }
        },
        PointerEvent::SecondaryDown { x, y } => {
            if dont_paste {
                Reaction::Ignore
            } else {
                Reaction::Paste { x, y }
            }
        },
        PointerEvent::Other => Reaction::Ignore,
    }
}

/// Law: a button-down, button-dragged, button-up sequence triggers the
/// capture protocol, whatever the click timing was.
pub proof fn lemma_drag_triggers_capture(
    t: ClickTracker,
    down_ms: i64,
    dont_paste: bool,
)
    requires
        t.wf(),
        0 <= down_ms,
    ensures
        ({
            let (t1, r1) = dispatch_model(t, PointerEvent::PrimaryDown { at_ms: down_ms }, dont_paste);
            let (t2, r2) = dispatch_model(t1, PointerEvent::PrimaryDragged, dont_paste);
            let (t3, r3) = dispatch_model(t2, PointerEvent::PrimaryUp, dont_paste);
            r3 == Reaction::Capture && !t3.dragging
        }),
{
}

/// The event mask the global monitor is installed with: one bit per
/// observed event kind, at the bit positions the OS gives those kinds
/// (primary down, primary up, primary dragged, secondary down).
pub open spec fn monitored_mask() -> u64 {
    (1u64 << 1) | (1u64 << 2) | (1u64 << 6) | (1u64 << 25)
}

/// The event mask to install the session-wide, listen-only tap with.
pub fn tap_event_mask() -> (m: u64)
    ensures
        m == monitored_mask(),
{
    (1u64 << 1) | (1u64 << 2) | (1u64 << 6) | (1u64 << 25)
}

} // verus!
