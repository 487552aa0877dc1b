//! Whole-protocol scenarios against a simulated platform: a clipboard, a
//! foreground application that answers the copy chord, and a record of the
//! injected input.

use primary_selection::buffer::SelectionBuffer;
use primary_selection::click::ClickTracker;
use primary_selection::monitor::{on_pointer_event, PointerEvent, Reaction};
use primary_selection::protocol::{
    capture_begin, capture_finish, capture_probe, paste_begin, paste_finish, paste_steps,
    ProtoStep, SETTLE_MILLIS,
};

struct Sim {
    clipboard: String,
    /// What the foreground application places in the clipboard in response
    /// to the copy chord; None: it does not respond.
    selection: Option<String>,
    clicks: Vec<(i64, i64)>,
    pastes: usize,
}

impl Sim {
    fn new(clipboard: &str, selection: Option<&str>) -> Sim {
        Sim {
            clipboard: String::from(clipboard),
            selection: selection.map(String::from),
            clicks: Vec::new(),
            pastes: 0,
        }
    }

    /// Perform a script in order; returns the last clipboard read, if any.
    fn perform(&mut self, steps: &[ProtoStep]) -> Option<String> {
        let mut last_read = None;
        for s in steps {
            match s {
                ProtoStep::ReadClipboard => {
                    last_read = Some(self.clipboard.clone());
                }
                ProtoStep::WriteClipboard { text } => {
                    self.clipboard = text.clone();
                }
                ProtoStep::TapKeys { chord } => {
                    if chord.keycode == 8 && chord.command_modifier {
                        if let Some(sel) = &self.selection {
                            self.clipboard = sel.clone();
                        }
                    } else if chord.keycode == 9 && chord.command_modifier {
                        self.pastes += 1;
                    }
                }
                ProtoStep::FocusClick { x, y } => {
                    self.clicks.push((*x, *y));
                }
                ProtoStep::SleepMillis { ms } => {
                    assert_eq!(*ms, SETTLE_MILLIS);
                }
            }
        }
        last_read
    }
}

/// Drive the whole capture protocol against the simulated platform.
fn run_capture(sim: &mut Sim, buf: &mut SelectionBuffer) {
    if let Some(open) = capture_begin(buf) {
        let before = sim.perform(&open);
        let probe = capture_probe();
        let copied = sim.perform(&probe);
        let restore = capture_finish(buf, before, copied);
        sim.perform(&restore);
    }
}

/// Drive the whole paste protocol against the simulated platform.
fn run_paste(sim: &mut Sim, buf: &mut SelectionBuffer, x: i64, y: i64) {
    if let Some(open) = paste_begin(buf) {
        let before = sim.perform(&open);
        if let Some(steps) = paste_steps(buf, before, x, y) {
            sim.perform(&steps);
        }
        paste_finish(buf);
    }
}

#[test]
fn capture_round_trips_the_clipboard() {
    let mut sim = Sim::new("A", Some("B"));
    let mut buf = SelectionBuffer::new(true);
    run_capture(&mut sim, &mut buf);
    assert_eq!(sim.clipboard, "A");
    assert_eq!(buf.pending_text().unwrap(), "B");
}

#[test]
fn paste_round_trips_the_clipboard() {
    let mut sim = Sim::new("A", None);
    let mut buf = SelectionBuffer::new(true);
    buf.store(String::from("B"));
    run_paste(&mut sim, &mut buf, 5, 6);
    assert_eq!(sim.clipboard, "A");
    assert!(!buf.has_pending());
    assert_eq!(sim.pastes, 1);
    assert_eq!(sim.clicks, vec![(5, 6)]);
}

#[test]
fn locked_capture_keeps_pending_value() {
    // Buffer already holds "foo" under the lock policy; a capture that
    // would yield "bar" must leave it at "foo".
    let mut sim = Sim::new("A", Some("bar"));
    let mut buf = SelectionBuffer::new(true);
    buf.store(String::from("foo"));
    run_capture(&mut sim, &mut buf);
    assert_eq!(buf.pending_text().unwrap(), "foo");
    assert_eq!(sim.clipboard, "A");
    // The locked-out capture never touched the platform at all.
    assert_eq!(sim.pastes, 0);
}

#[test]
fn unlocked_capture_replaces_pending_value() {
    let mut sim = Sim::new("A", Some("bar"));
    let mut buf = SelectionBuffer::new(false);
    buf.store(String::from("foo"));
    run_capture(&mut sim, &mut buf);
    assert_eq!(buf.pending_text().unwrap(), "bar");
    assert_eq!(sim.clipboard, "A");
}

#[test]
fn whitespace_capture_leaves_absent_buffer_absent() {
    let mut sim = Sim::new("A", Some(" \t\n"));
    let mut buf = SelectionBuffer::new(true);
    run_capture(&mut sim, &mut buf);
    assert!(!buf.has_pending());
    assert_eq!(sim.clipboard, "A");
}

#[test]
fn unresponsive_target_with_empty_clipboard_is_a_noop() {
    // The target never fills the clipboard and the clipboard is empty:
    // the probe reads empty text, and the buffer stays absent.
    let mut sim = Sim::new("", None);
    let mut buf = SelectionBuffer::new(true);
    run_capture(&mut sim, &mut buf);
    assert!(!buf.has_pending());
    assert_eq!(sim.clipboard, "");
}

#[test]
fn paste_clears_buffer_even_when_nothing_listens() {
    // Nothing consumes the paste downstream; the buffer clears anyway.
    let mut sim = Sim::new("A", None);
    let mut buf = SelectionBuffer::new(true);
    buf.store(String::from("anything"));
    run_paste(&mut sim, &mut buf, 0, 0);
    assert!(!buf.has_pending());
}

#[test]
fn paste_with_empty_buffer_touches_nothing() {
    let mut sim = Sim::new("A", None);
    let mut buf = SelectionBuffer::new(true);
    run_paste(&mut sim, &mut buf, 1, 2);
    assert_eq!(sim.clipboard, "A");
    assert_eq!(sim.pastes, 0);
    assert!(sim.clicks.is_empty());
}

#[test]
fn capture_restore_writes_empty_text_when_read_failed() {
    let mut buf = SelectionBuffer::new(true);
    // The platform's clipboard read failed: before is None, and the
    // restore script writes empty text, the nearest achievable state.
    let restore = capture_finish(&mut buf, None, Some(String::from("picked")));
    assert_eq!(restore.len(), 1);
    if let ProtoStep::WriteClipboard { text } = &restore[0] {
        assert_eq!(text, "");
    } else {
        panic!("restore step must write the clipboard");
    }
    assert_eq!(buf.pending_text().unwrap(), "picked");
}

#[test]
fn end_to_end_drag_capture_then_paste() {
    // Clipboard starts as "X"; the user drags to select text; the
    // foreground application answers the copy with "hello".
    let mut sim = Sim::new("X", Some("hello"));
    let mut buf = SelectionBuffer::new(true);
    let mut t = ClickTracker::new();

    let _ = on_pointer_event(&mut t, PointerEvent::PrimaryDown { at_ms: 100_000 }, false);
    let _ = on_pointer_event(&mut t, PointerEvent::PrimaryDragged, false);
    let up = on_pointer_event(&mut t, PointerEvent::PrimaryUp, false);
    assert!(up == Reaction::Capture);
    run_capture(&mut sim, &mut buf);

    assert_eq!(sim.clipboard, "X");
    assert_eq!(buf.pending_text().unwrap(), "hello");

    // A secondary-button click elsewhere pastes the selection there.
    let down = on_pointer_event(&mut t, PointerEvent::SecondaryDown { x: 640, y: 480 }, false);
    match down {
        Reaction::Paste { x, y } => run_paste(&mut sim, &mut buf, x, y),
        _ => panic!("secondary down must trigger the paste protocol"),
    }

    assert_eq!(sim.clipboard, "X");
    assert!(!buf.has_pending());
    assert_eq!(sim.clicks, vec![(640, 480)]);
    assert_eq!(sim.pastes, 1);
}
