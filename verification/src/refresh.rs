//! Refresh requests and their urgency ordering.
//!
//! A surface carries one pending [`RefreshRequest`]. New requests are
//! merged into it so that the more urgent request always wins:
//! `NextFrame` dominates everything, `At(t)` beats `Wait`, and of two
//! timed requests the earlier instant wins. `Wait` is the neutral
//! default.

use vstd::prelude::*;

verus! {

/// When a surface wants to be redrawn.
///
/// Instants are plain timestamps in milliseconds on the engine's
/// monotonic clock.
#[derive(Debug, Clone, Copy, PartialEq, Eq, Structural)]
pub enum RefreshRequest {
    /// Redraw on the very next frame.
    NextFrame,
    /// Redraw once the given instant has elapsed.
    At(u64),
    /// No redraw is needed.
    Wait,
}

impl RefreshRequest {
    /// The neutral state: no redraw pending.
    pub fn default_wait() -> (r: RefreshRequest)
        ensures
            r == RefreshRequest::Wait,
    {
        RefreshRequest::Wait
    }

    /// What merging `other` into `self` must yield: the more urgent of
    /// the two requests.
    pub open spec fn spec_merged(self, other: RefreshRequest) -> RefreshRequest {
        match (self, other) {
            (RefreshRequest::NextFrame, _) => RefreshRequest::NextFrame,
            (_, RefreshRequest::NextFrame) => RefreshRequest::NextFrame,
            (RefreshRequest::At(a), RefreshRequest::At(b)) => if a <= b {
                RefreshRequest::At(a)
            } else {
                RefreshRequest::At(b)
            },
            (RefreshRequest::At(a), RefreshRequest::Wait) => RefreshRequest::At(a),
            (RefreshRequest::Wait, RefreshRequest::At(b)) => RefreshRequest::At(b),
            (RefreshRequest::Wait, RefreshRequest::Wait) => RefreshRequest::Wait,
        }
    }

    /// Merge `other` into `self`, keeping the more urgent request.
    pub fn merged(self, other: RefreshRequest) -> (r: RefreshRequest)
        ensures
            r == self.spec_merged(other),
    {
        match (self, other) {
            (RefreshRequest::NextFrame, _) => RefreshRequest::NextFrame,
            (_, RefreshRequest::NextFrame) => RefreshRequest::NextFrame,
            (RefreshRequest::At(a), RefreshRequest::At(b)) => if a <= b {
                RefreshRequest::At(a)
            } else {
                RefreshRequest::At(b)
            },
            (RefreshRequest::At(a), RefreshRequest::Wait) => RefreshRequest::At(a),
            (RefreshRequest::Wait, RefreshRequest::At(b)) => RefreshRequest::At(b),
            (RefreshRequest::Wait, RefreshRequest::Wait) => RefreshRequest::Wait,
        }
    }

    /// True once this request asks for a redraw now: on the next frame,
    /// or at an instant that has already elapsed.
    pub open spec fn spec_due(self, now: u64) -> bool {
        match self {
            RefreshRequest::NextFrame => true,
            RefreshRequest::At(instant) => instant <= now,
            RefreshRequest::Wait => false,
        }
    }

    /// Whether the request is due at time `now`.
    pub fn due(self, now: u64) -> (r: bool)
        ensures
            r == self.spec_due(now),
    {
        match self {
            RefreshRequest::NextFrame => true,
            RefreshRequest::At(instant) => instant <= now,
            RefreshRequest::Wait => false,
        }
    }
}

/// Merging is commutative under the urgency priority: merging `Wait`
/// with any request yields that request, merging two timed requests
/// yields the earlier instant, and `NextFrame` dominates everything,
/// in either argument order.
pub proof fn lemma_merge_commutative_under_priority(a: RefreshRequest, b: RefreshRequest)
    ensures
        RefreshRequest::Wait.spec_merged(a) == a,
        a.spec_merged(RefreshRequest::Wait) == a,
        a.spec_merged(RefreshRequest::NextFrame) == RefreshRequest::NextFrame,
        RefreshRequest::NextFrame.spec_merged(a) == RefreshRequest::NextFrame,
        a.spec_merged(b) == b.spec_merged(a),
{
}

/// Of two timed requests the earlier instant wins.
pub proof fn lemma_merge_timed_takes_earlier(t1: u64, t2: u64)
    ensures
        RefreshRequest::At(t1).spec_merged(RefreshRequest::At(t2)) == (RefreshRequest::At(
            if t1 <= t2 {
                t1
            } else {
                t2
            },
        )),
{
}

/// Merging never weakens an existing stronger request: whatever was due
/// stays due after any merge.
pub proof fn lemma_merge_never_weakens(a: RefreshRequest, b: RefreshRequest, now: u64)
    ensures
        a.spec_due(now) ==> a.spec_merged(b).spec_due(now),
        b.spec_due(now) ==> a.spec_merged(b).spec_due(now),
{
}

} // verus!
