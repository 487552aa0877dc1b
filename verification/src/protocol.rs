//! The non-destructive capture and paste protocols.
//!
//! Both protocols use the system clipboard as scratch space and must leave
//! it as they found it. The verified core decides each step; the platform
//! layer performs the returned scripts in order against the OS: it reads
//! and writes the clipboard, posts synthetic input, and sleeps, and hands
//! clipboard reads back as plain values.
//!
//! Capture runs in three parts, in this order: `capture_begin` (the lock
//! gate, then read the clipboard as `before`), `capture_probe` (synthetic
//! copy, a settling delay, read the clipboard as `copied`), and
//! `capture_finish` (restore `before`, keep `copied` in the buffer unless
//! it is blank). Paste runs in two: `paste_begin` (read the clipboard as
//! `before`), then `paste_steps` (stage the buffer's text, focus-click,
//! synthetic paste, restore `before`) and `paste_finish` (consume the
//! buffer, whatever the paste did downstream).

use vstd::prelude::*;
use crate::buffer::SelectionBuffer;
use crate::keys::{copy_chord, copy_cmd_c, paste_chord, paste_cmd_v, KeyChord};
use crate::text::{is_blank, opt_text, text_is_blank};

verus! {

/// How long the protocols wait for the foreground application to react to
/// synthetic input, in milliseconds. A best-effort synchronization, not a
/// guarantee: under load the target may not have responded yet.
pub const SETTLE_MILLIS: u64 = 20;

/// One step of a protocol, for the platform layer to perform.
pub enum ProtoStep {
    /// Read the system clipboard; its text feeds the protocol's next part.
    ReadClipboard,
    /// Write the given text to the system clipboard.
    WriteClipboard { text: String },
    /// Post the given key chord (press and release) to the session.
    TapKeys { chord: KeyChord },
    /// Post a primary-button click at the given screen point, to move
    /// input focus to the window under the cursor.
    FocusClick { x: i64, y: i64 },
    /// Sleep for the given number of milliseconds.
    SleepMillis { ms: u64 },
}

/// What the clipboard holds after one step, given what a synthetic copy
/// would leave there: `sel` is the text the foreground application places
/// in the clipboard in response to the copy chord, or `None` when it does
/// not respond (no selection, or the settling delay was too short).
pub open spec fn step_clip(clip: Seq<char>, sel: Option<Seq<char>>, s: ProtoStep) -> Seq<char> {
    match s {
        ProtoStep::WriteClipboard { text } => text@,
        ProtoStep::TapKeys { chord } => if chord == copy_chord() {
            match sel {
                Some(t) => t,
                None => clip,
            }
        } else {
            clip
        },
        _ => clip,
    }
}

/// What the clipboard holds after a whole script.
pub open spec fn run_clip(clip: Seq<char>, sel: Option<Seq<char>>, steps: Seq<ProtoStep>) -> Seq<
    char,
>
    decreases steps.len(),
{
    if steps.len() == 0 {
        clip
    } else {
        run_clip(step_clip(clip, sel, steps[0]), sel, steps.drop_first())
    }
}

/// The script that opens either protocol: read the clipboard, so it can be
/// restored later.
pub open spec fn open_script() -> Seq<ProtoStep> {
    seq![ProtoStep::ReadClipboard]
}

/// The capture probe: ask the foreground application to copy its
/// selection, give it time to respond, and read what arrived.
pub open spec fn probe_script() -> Seq<ProtoStep> {
    seq![
        (ProtoStep::TapKeys { chord: copy_chord() }),
        (ProtoStep::SleepMillis { ms: SETTLE_MILLIS }),
        ProtoStep::ReadClipboard,
    ]
}

/// The shape of the paste script: stage `text`, focus the click point,
/// paste, and restore `before`, with a settling delay around the paste.
pub open spec fn is_paste_script(
    s: Seq<ProtoStep>,
    text: Seq<char>,
    before: Seq<char>,
    x: i64,
    y: i64,
) -> bool {
    &&& s.len() == 6
    &&& (s[0] matches ProtoStep::WriteClipboard { text: t } && t@ == text)
    &&& s[1] == (ProtoStep::FocusClick { x, y })
    &&& s[2] == (ProtoStep::SleepMillis { ms: SETTLE_MILLIS })
    &&& s[3] == (ProtoStep::TapKeys { chord: paste_chord() })
    &&& s[4] == (ProtoStep::SleepMillis { ms: SETTLE_MILLIS })
    &&& (s[5] matches ProtoStep::WriteClipboard { text: t } && t@ == before)
}

/// What the buffer holds after the capture protocol commits `copied`: a
/// blank probe means no selection was present, and the buffer stands;
/// anything else replaces the previous value.
pub open spec fn capture_commit_model(buf: Option<Seq<char>>, copied: Seq<char>) -> Option<
    Seq<char>,
> {
    if is_blank(copied) {
        buf
    } else {
        Some(copied)
    }
}

/// The capture protocol, end to end, as one transition on the buffer and
/// the clipboard. `lock` is the buffer's locked-until-consumed policy;
/// `sel` is what a synthetic copy leaves in the clipboard, as in
/// `step_clip`. The clipboard always comes back as it was.
pub open spec fn capture_model(
    buf: Option<Seq<char>>,
    lock: bool,
    clip: Seq<char>,
    sel: Option<Seq<char>>,
) -> (Option<Seq<char>>, Seq<char>) {
    if lock && buf is Some {
        (buf, clip)
    } else {
        let copied = match sel {
            Some(t) => t,
            None => clip,
        };
        (capture_commit_model(buf, copied), clip)
    }
}

/// The paste protocol, end to end: the buffer is consumed whatever the
/// paste did downstream, and the clipboard always comes back as it was.
pub open spec fn paste_model(buf: Option<Seq<char>>, clip: Seq<char>) -> (
    Option<Seq<char>>,
    Seq<char>,
) {
    (None, clip)
}

/// Open the capture protocol. Returns the opening script (one clipboard
/// read, yielding `before`), or nothing when the buffer's lock policy
/// forbids a capture: a pending unconsumed value must not be overwritten.
pub fn capture_begin(buf: &SelectionBuffer) -> (r: Option<Vec<ProtoStep>>)
    ensures
        (r is Some) == !(buf.locked() && buf.pending() is Some),
        r matches Some(v) ==> v@ == open_script(),
{
    if buf.may_capture() {
        let mut v: Vec<ProtoStep> = Vec::new();
        v.push(ProtoStep::ReadClipboard);
        proof {
            assert(v@ =~= open_script());
        }
        Some(v)
    } else {
        None
    }
}

/// The capture probe script: synthetic copy, settling delay, clipboard
/// read (yielding `copied`).
pub fn capture_probe() -> (r: Vec<ProtoStep>)
    ensures
        r@ == probe_script(),
{
    let mut v: Vec<ProtoStep> = Vec::new();
    v.push(ProtoStep::TapKeys { chord: copy_cmd_c() });
    v.push(ProtoStep::SleepMillis { ms: SETTLE_MILLIS });
    v.push(ProtoStep::ReadClipboard);
    proof {
        assert(v@ =~= probe_script());
    }
    v
}

/// Close the capture protocol: commit `copied` to the buffer unless it is
/// blank, and return the script that restores the clipboard to `before`.
/// A failed clipboard read comes in as `None` and reads as empty text.
pub fn capture_finish(buf: &mut SelectionBuffer, before: Option<String>, copied: Option<String>) -> (r:
    Vec<ProtoStep>)
    requires
        old(buf).wf(),
    ensures
        final(buf).wf(),
        final(buf).locked() == old(buf).locked(),
        final(buf).pending() == capture_commit_model(old(buf).pending(), opt_text(copied)),
        r@.len() == 1,
        (r@[0] matches ProtoStep::WriteClipboard { text: t } && t@ == opt_text(before)),
{
    let before_text = match before {
        Some(s) => s,
        None => String::new(),
    };
    let copied_text = match copied {
        Some(s) => s,
        None => String::new(),
    };
    if !text_is_blank(copied_text.as_str()) {
        buf.store(copied_text);
    }
    let mut v: Vec<ProtoStep> = Vec::new();
    v.push(ProtoStep::WriteClipboard { text: before_text });
    v
}

/// Open the paste protocol. Returns the opening script (one clipboard
/// read, yielding `before`), or nothing when the buffer is empty: an empty
/// buffer means no clipboard or injector work at all.
pub fn paste_begin(buf: &SelectionBuffer) -> (r: Option<Vec<ProtoStep>>)
    ensures
        (r is Some) == (buf.pending() is Some),
        r matches Some(v) ==> v@ == open_script(),
{
    if buf.has_pending() {
        let mut v: Vec<ProtoStep> = Vec::new();
        v.push(ProtoStep::ReadClipboard);
        proof {
            assert(v@ =~= open_script());
        }
        Some(v)
    } else {
        None
    }
}

/// The paste script for the buffer's pending text at screen point
/// `(x, y)`, restoring the clipboard to `before` at the end. Returns
/// nothing when the buffer is empty.
pub fn paste_steps(buf: &SelectionBuffer, before: Option<String>, x: i64, y: i64) -> (r: Option<
    Vec<ProtoStep>,
>)
    ensures
        (r is Some) == (buf.pending() is Some),
        r matches Some(v) ==> is_paste_script(v@, buf.pending()->0, opt_text(before), x, y),
{
    match buf.pending_text() {
        None => None,
        Some(text) => {
            let before_text = match before {
                Some(s) => s,
                None => String::new(),
            };
            let mut v: Vec<ProtoStep> = Vec::new();
            v.push(ProtoStep::WriteClipboard { text });
            v.push(ProtoStep::FocusClick { x, y });
            v.push(ProtoStep::SleepMillis { ms: SETTLE_MILLIS });
            v.push(ProtoStep::TapKeys { chord: paste_cmd_v() });
            v.push(ProtoStep::SleepMillis { ms: SETTLE_MILLIS });
            v.push(ProtoStep::WriteClipboard { text: before_text });
            Some(v)
        },
    }
}

/// Close the paste protocol: consume the buffer unconditionally. A strict
/// one-shot: the buffer is empty afterwards whether or not the injected
/// paste visibly succeeded.
pub fn paste_finish(buf: &mut SelectionBuffer)
    ensures
        final(buf).wf(),
        final(buf).pending() is None,
        final(buf).locked() == old(buf).locked(),
{
    buf.clear();
}

/// Law: with the lock policy on and a value pending, a capture leaves the
/// buffer exactly as it was, whatever a new probe would have yielded.
pub proof fn lemma_locked_capture_keeps_pending(
    pending: Seq<char>,
    clip: Seq<char>,
    sel: Option<Seq<char>>,
)
    ensures
        capture_model(Some(pending), true, clip, sel) == (Some(pending), clip),
{
}

/// Law: a capture whose probe yields only whitespace changes nothing: a
/// previously absent buffer stays absent, a pending value stands.
pub proof fn lemma_blank_capture_is_noop(
    buf: Option<Seq<char>>,
    lock: bool,
    clip: Seq<char>,
    sel: Option<Seq<char>>,
)
    requires
        is_blank(
            match sel {
                Some(t) => t,
                None => clip,
            },
        ),
    ensures
        capture_model(buf, lock, clip, sel).0 == buf,
{
}

/// Law: a paste consumes the buffer, whatever it held and whatever the
/// injected paste did downstream.
pub proof fn lemma_paste_always_clears(buf: Option<Seq<char>>, clip: Seq<char>)
    ensures
        paste_model(buf, clip).0 is None,
{
}

/// Law: both protocols leave the clipboard exactly as they found it.
pub proof fn lemma_protocols_preserve_clipboard(
    buf: Option<Seq<char>>,
    lock: bool,
    clip: Seq<char>,
    sel: Option<Seq<char>>,
)
    ensures
        capture_model(buf, lock, clip, sel).1 == clip,
        paste_model(buf, clip).1 == clip,
{
}

/// Law: `capture_model` speaks of the performed scripts. The probe script
/// leaves in the clipboard exactly the foreground application's answer to
/// the copy (or the prior text, when it did not respond), and the model's
/// committed buffer is the commit of that text.
pub proof fn lemma_capture_model_matches_scripts(
    buf: Option<Seq<char>>,
    lock: bool,
    clip: Seq<char>,
    sel: Option<Seq<char>>,
)
    requires
        !(lock && buf is Some),
    ensures
        run_clip(clip, sel, probe_script()) == (match sel {
            Some(t) => t,
            None => clip,
        }),
        capture_model(buf, lock, clip, sel).0 == capture_commit_model(
            buf,
            run_clip(clip, sel, probe_script()),
        ),
{
    reveal_with_fuel(run_clip, 5);
}

/// Law: the clipboard round trip of a performed capture. Running the
/// opening read, the probe, and a restore script that writes back what the
/// opening read found leaves the clipboard with exactly that text,
/// whatever the foreground application put there in between.
pub proof fn lemma_capture_run_preserves_clipboard(
    before: String,
    sel: Option<Seq<char>>,
    restore: Seq<ProtoStep>,
)
    requires
        restore.len() == 1,
        (restore[0] matches ProtoStep::WriteClipboard { text: t } && t@ == before@),
    ensures
        run_clip(run_clip(run_clip(before@, sel, open_script()), sel, probe_script()), sel, restore)
            == before@,
{
    reveal_with_fuel(run_clip, 5);
}

/// Law: the clipboard round trip of a performed paste. Running a paste
/// script whose restore text is what the opening read found leaves the
/// clipboard with exactly that text.
pub proof fn lemma_paste_run_preserves_clipboard(
    clip: Seq<char>,
    sel: Option<Seq<char>>,
    steps: Seq<ProtoStep>,
    text: Seq<char>,
    x: i64,
    y: i64,
)
    requires
        is_paste_script(steps, text, clip, x, y),
    ensures
        run_clip(clip, sel, steps) == clip,
{
    reveal_with_fuel(run_clip, 8);
}

} // verus!
