//! Cross-thread frame-ready notification, re-expressed as a coalescing
//! wakeup flag.
//!
//! The rendering backend calls the notifier from its own threads. The only
//! permitted effect is to mark the event loop's blocking wait for wakeup;
//! the loop thread later takes the mark and performs the actual update,
//! render and swap itself. Marking is idempotent, so any burst of
//! notifications collapses into one observable wake; the embedding wraps
//! the flag in its own synchronization and forwards `new_frame_ready` and
//! `new_scroll_frame_ready` to it.

use vstd::prelude::*;
use crate::geom::Size;
use crate::scene::PipelineId;

verus! {

/// The wakeup state shared, under the embedding's lock, between the
/// backend's threads and the event loop.
#[derive(Clone, Copy, Debug, PartialEq, Eq, Structural)]
pub struct FrameNotifier {
    pub wake_pending: bool,
}

/// The notifier state after `n` further ready notifications.
pub open spec fn after_notifies(s: FrameNotifier, n: nat) -> FrameNotifier
    decreases n,
{
    if n == 0 {
        s
    } else {
        after_notifies(FrameNotifier { wake_pending: true }, (n - 1) as nat)
    }
}

impl FrameNotifier {
    /// A notifier with no wake pending.
    pub fn new() -> (r: FrameNotifier)
        ensures
            r == (FrameNotifier { wake_pending: false }),
    {
        FrameNotifier { wake_pending: false }
    }

    /// A new frame is ready: request one wakeup of the event loop. Marking
    /// again before the wake is taken changes nothing, which is what
    /// coalesces notification bursts.
    pub fn new_frame_ready(&mut self)
        ensures
            *final(self) == (FrameNotifier { wake_pending: true }),
    {
        self.wake_pending = true;
    }

    /// A scroll frame is ready: the same wakeup is used, whatever
    /// `composite_needed` says.
    pub fn new_scroll_frame_ready(&mut self, _composite_needed: bool)
        ensures
            *final(self) == (FrameNotifier { wake_pending: true }),
    {
        self.wake_pending = true;
    }

    /// A pipeline's size changed: deliberately ignored, since viewport
    /// changes are already observed through the windowing layer's resize
    /// events.
    pub fn pipeline_size_changed(&mut self, _pipeline_id: PipelineId, _new_size: Option<Size>)
        ensures
            *final(self) == *old(self),
    {
    }

    /// Takes the pending wake, if any: true exactly when some notification
    /// arrived since the last take, and never twice for one burst.
    pub fn take_wakeup(&mut self) -> (r: bool)
        ensures
            r == old(self).wake_pending,
            *final(self) == (FrameNotifier { wake_pending: false }),
    {
        let r = self.wake_pending;
        self.wake_pending = false;
        r
    }
}

/// Coalescing law: any positive number of ready notifications, from
/// whatever thread and in whatever order they arrive, leaves exactly one
/// wake pending — the next `take_wakeup` observes one wake, and a second
/// take observes none until a new notification arrives.
pub proof fn lemma_notifications_coalesce(s: FrameNotifier, n: nat)
    requires
        n > 0,
    ensures
        after_notifies(s, n) == (FrameNotifier { wake_pending: true }),
    decreases n,
{
    if n > 1 {
        lemma_notifications_coalesce(FrameNotifier { wake_pending: true }, (n - 1) as nat);
    } else {
        assert(after_notifies(FrameNotifier { wake_pending: true }, 0) == (FrameNotifier {
            wake_pending: true,
        }));
    }
}

} // verus!
