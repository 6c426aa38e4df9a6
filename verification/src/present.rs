//! The per-surface frame-pacing token.
//!
//! [`PresentAvailableState`] guards redrawing: only one redraw may be in
//! flight per surface. Taking the present slot flips `Available` to
//! `Taken`; after drawing, requesting the next present flips `Taken` to
//! `Requested` and a frame callback is registered; when the compositor
//! fires the callback the state returns to `Available`.

use vstd::prelude::*;

verus! {

/// Whether a redraw may start for a surface.
#[derive(Debug, Clone, Copy, PartialEq, Eq, Structural)]
pub enum PresentAvailableState {
    /// A frame request has been sent and its callback has not fired yet.
    Requested,
    /// It is a good time to start drawing a new frame. Nothing has been
    /// presented at first, so this is the default.
    Available,
    /// Availability has been taken by a redraw in progress.
    Taken,
}

impl PresentAvailableState {
    /// The default state: the slot is free.
    pub fn default_available() -> (r: PresentAvailableState)
        ensures
            r == PresentAvailableState::Available,
    {
        PresentAvailableState::Available
    }

    /// State after trying to take the slot, and whether the take
    /// succeeded. Taking succeeds only from `Available`.
    pub open spec fn spec_take(self) -> (PresentAvailableState, bool) {
        if self == PresentAvailableState::Available {
            (PresentAvailableState::Taken, true)
        } else {
            (self, false)
        }
    }

    /// State after the drawn frame asks for its frame callback. Only a
    /// taken slot moves on to `Requested`.
    pub open spec fn spec_request_next(self) -> (PresentAvailableState, bool) {
        if self == PresentAvailableState::Taken {
            (PresentAvailableState::Requested, true)
        } else {
            (self, false)
        }
    }

    /// State after giving a taken slot back unused.
    pub open spec fn spec_reset(self) -> (PresentAvailableState, bool) {
        if self == PresentAvailableState::Taken {
            (PresentAvailableState::Available, true)
        } else {
            (self, false)
        }
    }
}

/// Between two consecutive request-next-present/callback-fired cycles the
/// slot can be taken at most once: a successful take leaves the slot
/// unavailable, a second take fails, and moving the taken slot on to
/// `Requested` still does not make a take succeed. Only the compositor's
/// callback (back to `Available`) re-arms it.
pub proof fn lemma_present_slot_taken_at_most_once(s: PresentAvailableState)
    ensures
        s.spec_take().1 ==> s.spec_take().0.spec_take().1 == false,
        s.spec_take().1 ==> s.spec_take().0.spec_request_next().0.spec_take().1 == false,
        PresentAvailableState::Available.spec_take().1,
{
}

} // verus!
