//! The one-shot selection buffer.
//!
//! Holds at most one captured selection. Its invariant: a held text is
//! never blank. With the lock policy enabled, a pending value must be
//! consumed by a paste before a new capture may replace it.

use vstd::prelude::*;
use crate::text::is_blank;

verus! {

/// A mutually-exclusive-access optional text value with a "locked until
/// consumed" policy. The platform layer guards it with a lock, since the
/// monitor thread writes it while other threads may inspect it.
pub struct SelectionBuffer {
    text: Option<String>,
    lock_until_consumed: bool,
}

impl SelectionBuffer {
    /// The text the buffer holds, if any.
    pub closed spec fn pending(self) -> Option<Seq<char>> {
        match self.text {
            Some(s) => Some(s@),
            None => None,
        }
    }

    /// Whether a pending value blocks further captures until consumed.
    pub closed spec fn locked(self) -> bool {
        self.lock_until_consumed
    }

    /// A held text is never empty or all-whitespace.
    pub open spec fn wf(self) -> bool {
        match self.pending() {
            Some(t) => !is_blank(t),
            None => true,
        }
    }

    /// A buffer as it stands at engine construction: empty.
    pub fn new(lock_until_consumed: bool) -> (b: Self)
        ensures
            b.pending() is None,
            b.locked() == lock_until_consumed,
            b.wf(),
    {
        SelectionBuffer { text: None, lock_until_consumed }
    }

    /// Whether a captured selection is waiting to be pasted.
    pub fn has_pending(&self) -> (r: bool)
        ensures
            r == (self.pending() is Some),
    {
        self.text.is_some()
    }

    /// A copy of the pending text, for a paste or for inspection.
    pub fn pending_text(&self) -> (r: Option<String>)
        ensures
            match r {
                Some(s) => self.pending() == Some(s@),
                None => self.pending() is None,
            },
    {
        match &self.text {
            Some(s) => Some(s.clone()),
            None => None,
        }
    }

    /// Whether a capture may write the buffer now: it may not when the
    /// lock policy is on and an unconsumed value is still pending.
    pub fn may_capture(&self) -> (r: bool)
        ensures
            r == !(self.locked() && self.pending() is Some),
    {
        !(self.lock_until_consumed && self.text.is_some())
    }

    /// Store a freshly captured text, replacing any previous value.
    pub fn store(&mut self, text: String)
        requires
            old(self).wf(),
            !is_blank(text@),
        ensures
            final(self).wf(),
            final(self).pending() == Some(text@),
            final(self).locked() == old(self).locked(),
    {
        self.text = Some(text);
    }

    /// Consume the buffer: it is empty afterwards, whatever it held.
    pub fn clear(&mut self)
        ensures
            final(self).wf(),
            final(self).pending() is None,
            final(self).locked() == old(self).locked(),
    {
        self.text = None;
    }
}

} // verus!
