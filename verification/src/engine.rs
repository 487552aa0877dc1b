//! Engine lifecycle state.
//!
//! The engine owns the running flag and the start/stop decisions. The
//! platform layer holds it under a lock (which makes the start check-and-set
//! atomic), spawns and joins the worker thread, and cancels the monitor
//! loop, exactly as the decisions returned here say.

use vstd::prelude::*;

verus! {

/// Lifecycle state of the selection-capture engine.
///
/// `running` is not a flag the caller simply sets: it is true only between
/// a start that won the spawn and the worker's exit or a stop, and it flips
/// false autonomously (through `loop_exited`) when the monitor loop ends on
/// its own, such as on a permission denial.
pub struct Engine {
    /// Whether a worker thread is (believed) alive with the monitor loop.
    pub running: bool,
    /// Whether the paste-trigger branch is suppressed for this run.
    pub dont_paste: bool,
}

/// The start transition: a no-op while running, else the running flag is
/// raised and the caller is told to spawn the worker.
pub open spec fn start_model(e: Engine, dont_paste: bool) -> (Engine, bool) {
    if e.running {
        (e, false)
    } else {
        (Engine { running: true, dont_paste }, true)
    }
}

/// The stop transition: the running flag is lowered, whatever it was.
pub open spec fn stop_model(e: Engine) -> Engine {
    Engine { running: false, dont_paste: e.dont_paste }
}

impl Engine {
    /// A fresh engine: not running.
    pub fn new() -> (e: Self)
        ensures
            !e.running,
            !e.dont_paste,
    {
        Engine { running: false, dont_paste: false }
    }

    /// Point-in-time read of the running flag. It may be observed true
    /// just before it autonomously flips false on a hook failure.
    pub fn is_running(&self) -> (r: bool)
        ensures
            r == self.running,
    {
        self.running
    }

    /// Ask the engine to start. Returns whether the caller must spawn the
    /// worker thread now: false means another start already won and this
    /// call is a no-op. `dont_paste` suppresses the paste trigger while
    /// capture still runs.
    pub fn start(&mut self, dont_paste: bool) -> (spawn: bool)
        ensures
            (*final(self), spawn) == start_model(*old(self), dont_paste),
            final(self).running,
    {
        if self.running {
            false
        } else {
            self.running = true;
            self.dont_paste = dont_paste;
            true
        }
    }

    /// Ask the engine to stop. Returns whether a worker was believed
    /// running, so the caller knows to cancel the monitor loop and join
    /// the thread; the call is a safe no-op when nothing runs. Either way
    /// the engine is not running once this returns.
    pub fn stop(&mut self) -> (was_running: bool)
        ensures
            *final(self) == stop_model(*old(self)),
            was_running == old(self).running,
            !final(self).running,
    {
        let was_running = self.running;
        self.running = false;
        was_running
    }

    /// The worker thread reports that the monitor loop has exited for any
    /// reason (permission denial, external stop): the engine is no longer
    /// running.
    pub fn loop_exited(&mut self)
        ensures
            *final(self) == stop_model(*old(self)),
            !final(self).running,
    {
        self.running = false;
    }
}

/// Law: starting is idempotent. Of two sequential starts, the second never
/// spawns; from a stopped engine exactly the first spawns, and from a
/// running engine neither does, so at most one worker is ever alive.
pub proof fn lemma_start_idempotent(e: Engine, dp1: bool, dp2: bool)
    ensures
        ({
            let (e1, spawn1) = start_model(e, dp1);
            let (e2, spawn2) = start_model(e1, dp2);
            &&& !spawn2
            &&& e1.running
            &&& e2 == e1
            &&& spawn1 == !e.running
        }),
{
}

/// Law: once stop has been asked, the engine is not running, and a second
/// stop changes nothing.
pub proof fn lemma_stop_is_final(e: Engine)
    ensures
        !stop_model(e).running,
        stop_model(stop_model(e)) == stop_model(e),
{
}

} // verus!
