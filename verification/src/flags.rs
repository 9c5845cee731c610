//! Shared per-surface request flags for lock-free close/redraw signaling.
//!
//! The owning handle and the event loop both mutate these flags; the loop
//! reads-and-clears the redraw flag when delivering redraw notifications.
//! Delivery clears the flag only if it was still set, so a request arriving
//! between two dispatch rounds is never silently dropped, and any number of
//! requests before a round collapse into a single delivered event.

use vstd::prelude::*;

verus! {

/// Window requests a handle sends to the event loop.
#[derive(Clone, Copy, Debug, PartialEq, Eq, Structural)]
pub struct WindowRequests {
    /// The owning handle was dropped and the surface should be reclaimed.
    pub closed: bool,
    /// A redraw was requested and not yet delivered.
    pub redraw_requested: bool,
}

/// The flags after one redraw request.
pub open spec fn with_redraw_requested(s: WindowRequests) -> WindowRequests {
    WindowRequests { closed: s.closed, redraw_requested: true }
}

/// The flags after the loop delivered (and so consumed) a redraw round.
pub open spec fn with_redraw_taken(s: WindowRequests) -> WindowRequests {
    WindowRequests { closed: s.closed, redraw_requested: false }
}

/// The flags after `n` consecutive redraw requests.
pub open spec fn after_redraw_requests(s: WindowRequests, n: nat) -> WindowRequests
    decreases n,
{
    if n == 0 {
        s
    } else {
        with_redraw_requested(after_redraw_requests(s, (n - 1) as nat))
    }
}

impl WindowRequests {
    /// Fresh flags for a newly created surface. The first frame is always
    /// wanted, so the redraw flag starts set.
    pub fn new() -> (r: Self)
        ensures
            !r.closed,
            r.redraw_requested,
    {
        WindowRequests { closed: false, redraw_requested: true }
    }

    /// Record a redraw request. Returns whether the event loop must be woken:
    /// if the flag was already set the loop still owes a delivery, so no
    /// extra wake-up is needed.
    pub fn request_redraw(&mut self) -> (wake: bool)
        ensures
            *final(self) == with_redraw_requested(*old(self)),
            wake == !old(self).redraw_requested,
    {
        let wake = !self.redraw_requested;
        self.redraw_requested = true;
        wake
    }

    /// Read and clear the redraw flag for one delivery round. Returns whether
    /// a redraw event is owed to the application in this round.
    pub fn take_redraw_request(&mut self) -> (owed: bool)
        ensures
            *final(self) == with_redraw_taken(*old(self)),
            owed == old(self).redraw_requested,
    {
        let owed = self.redraw_requested;
        self.redraw_requested = false;
        owed
    }

    /// Mark the surface closed.
    pub fn set_closed(&mut self)
        ensures
            final(self).closed,
            final(self).redraw_requested == old(self).redraw_requested,
    {
        self.closed = true;
    }
}

/// Redraw coalescing: any `n >= 1` redraw requests issued before a dispatch
/// round leave the flag set, so the round that consumes them delivers exactly
/// one redraw event, and a further round without new requests delivers none.
pub proof fn lemma_redraw_coalescing(s: WindowRequests, n: nat)
    requires
        n >= 1,
    ensures
        after_redraw_requests(s, n).redraw_requested,
        after_redraw_requests(s, n).closed == s.closed,
        !with_redraw_taken(after_redraw_requests(s, n)).redraw_requested,
    decreases n,
{
    if n > 1 {
        lemma_redraw_coalescing(s, (n - 1) as nat);
    } else {
        assert(after_redraw_requests(s, 0) == s);
    }
}

} // verus!
