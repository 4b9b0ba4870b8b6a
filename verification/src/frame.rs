//! Frame pacing: `next_frame()` is the await point that hands control back
//! to the event loop once per game tick. The future resolves on the first
//! presented frame after it was first polled, however many times the
//! executor polls it.

use vstd::prelude::*;

use crate::context::Context;

verus! {

/// The outcome of polling a frame wait whose target is `target` while
/// `frame` frames have been presented: the target it keeps (captured on the
/// first poll as the next frame) and whether it is ready.
pub open spec fn poll_outcome(target: Option<u64>, frame: u64) -> (Option<u64>, bool) {
    let t: int = match target {
        Some(t) => t as int,
        None => frame + 1,
    };
    (Some(t as u64), frame >= t)
}

/// Wait for the next presented frame, returned by [`next_frame`].
pub struct NextFrame {
    /// Presented-frame count this wait resolves on, captured on first poll.
    target_frame: Option<u64>,
}

/// Yields control back to the event loop and resolves when the frame being
/// drawn has been presented.
pub fn next_frame() -> (wait: NextFrame)
    ensures
        wait.target() == None::<u64>,
{
    NextFrame { target_frame: None }
}

impl NextFrame {
    /// The presented-frame count this wait resolves on, once polled.
    pub closed spec fn target(&self) -> Option<u64> {
        self.target_frame
    }

    /// Polls the wait against the engine state; returns whether it is ready.
    /// The first poll captures the next frame as the target.
    pub fn poll(&mut self, ctx: &Context) -> (ready: bool)
        requires
            old(self).target() is Some || ctx.frame < u64::MAX,
        ensures
            (final(self).target(), ready) == poll_outcome(old(self).target(), ctx.frame),
    {
        let target = match self.target_frame {
            Some(t) => t,
            None => {
                let t = ctx.frame + 1;
                self.target_frame = Some(t);
                t
            },
        };
        ctx.frame >= target
    }
}

/// A fresh wait is never ready on its first poll, and from then on it is
/// ready exactly when a frame has been presented since that poll.
pub proof fn lemma_wait_resolves_on_next_presented_frame(first: u64, later: u64)
    requires
        first < u64::MAX,
    ensures
        poll_outcome(None, first) == (Some((first + 1) as u64), false),
        poll_outcome(Some((first + 1) as u64), later) == (Some((first + 1) as u64), later > first),
{
}

} // verus!
