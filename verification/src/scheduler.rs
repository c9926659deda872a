//! Wake signal and scheduling mode.
//!
//! The engine may ask the host loop to wake up and pump once, from any
//! thread. The host-side decision logic is modelled here: a coalescing wake
//! flag (many wakes before the next pump collapse to one) that becomes a
//! no-op once the loop has exited, and the choice between busy-polling while
//! the page animates and blocking otherwise. The host program wraps the flag
//! in its toolkit's cross-thread hand-off primitive; every outcome of that
//! primitive is a sequence of the flag operations modelled here.

use vstd::prelude::*;

verus! {

/// How the host loop should wait for its next event.
#[derive(Clone, Copy, Debug, PartialEq, Eq, Structural)]
pub enum SchedulingMode {
    /// Busy-poll: return immediately so frames keep flowing.
    Poll,
    /// Block until the next native event or wake signal.
    Wait,
}

/// The scheduling mode for the most recently observed animation state:
/// poll exactly while the page animates.
pub fn mode_for_animation(animating: bool) -> (m: SchedulingMode)
    ensures
        (m is Poll) <==> animating,
{
    if animating {
        SchedulingMode::Poll
    } else {
        SchedulingMode::Wait
    }
}

/// A coalescing wake signal.
///
/// `live` is whether the host loop is still running; after the loop exits the
/// flag is retired and waking becomes a no-op. `pending` is whether at least
/// one wake has been requested since the last pump.
#[derive(Clone, Copy, Debug, PartialEq, Eq, Structural)]
pub struct WakeFlag {
    pub live: bool,
    pub pending: bool,
}

/// The flag after one wake request: set while the loop is live, untouched
/// once it has exited.
pub open spec fn spec_woken(w: WakeFlag) -> WakeFlag {
    WakeFlag { live: w.live, pending: w.pending || w.live }
}

impl WakeFlag {
    pub fn new() -> (w: WakeFlag)
        ensures
            w.live,
            !w.pending,
    {
        WakeFlag { live: true, pending: false }
    }

    /// Request one pump of the host loop. Never blocks and never fails; after
    /// the loop has exited it leaves the flag untouched.
    pub fn wake(&mut self)
        ensures
            *final(self) == spec_woken(*old(self)),
    {
        if self.live {
            self.pending = true;
        }
    }

    /// Consume the pending wakes: reports whether any pump was requested and
    /// resets the flag, so any number of wakes yields one pump.
    pub fn take(&mut self) -> (was_pending: bool)
        ensures
            was_pending == old(self).pending,
            !final(self).pending,
            final(self).live == old(self).live,
    {
        let was_pending = self.pending;
        self.pending = false;
        was_pending
    }

    /// Mark the host loop as exited: all later wakes are no-ops.
    pub fn retire(&mut self)
        ensures
            !final(self).live,
            final(self).pending == old(self).pending,
    {
        self.live = false;
    }
}

/// Waking is idempotent under coalescing: a second wake before the next pump
/// changes nothing, and after the host loop has exited a wake changes nothing
/// at all.
pub proof fn lemma_wake_coalesces(w: WakeFlag)
    ensures
        spec_woken(spec_woken(w)) == spec_woken(w),
        !w.live ==> spec_woken(w) == w,
{
}

} // verus!
