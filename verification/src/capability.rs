//! The common shape of every compositor-extension capability.
//!
//! A capability holds an optional global manager (absent until it was
//! negotiated) and a per-surface controller cache keyed by surface
//! identity. Controllers are created lazily on first use and cached;
//! with no manager every command degrades to a no-op. The engine names
//! controllers itself: a [`ControllerHandle`] is allocated here, and
//! the I/O shell creates the protocol object for a handle exactly when
//! a call reports it fresh.

use vstd::prelude::*;

use crate::id::Id;
use crate::kvlist::KvList;

verus! {

/// Handle of a bound extension manager object.
pub type ManagerHandle = u32;

/// The engine's name for one per-surface controller object.
pub type ControllerHandle = u64;

/// What a get-or-create returned: the controller's handle, and whether
/// the I/O shell must create the protocol object for it now.
#[derive(Debug, Clone, Copy, PartialEq, Eq, Structural)]
pub struct ControllerRef {
    pub handle: ControllerHandle,
    pub fresh: bool,
}

/// One extension capability: optional manager, per-surface controller
/// cache, and the counter naming fresh controllers.
#[derive(Debug, Clone)]
pub struct CapabilityState {
    pub manager: Option<ManagerHandle>,
    pub controllers: KvList<ControllerHandle>,
    pub next_controller: ControllerHandle,
}

impl CapabilityState {
    /// Distinct keys, and every cached handle was allocated here.
    pub open spec fn wf(self) -> bool {
        &&& self.controllers.wf()
        &&& forall|k: u64|
            self.controllers@.contains_key(k) ==> #[trigger] self.controllers@[k]
                < self.next_controller
    }

    /// The transition relation of [`Self::get_or_create_controller`]:
    /// from `pre`, asking for `id`'s controller yields result `r` and
    /// state `post`.
    pub open spec fn spec_get_or_create(
        pre: CapabilityState,
        id: Id,
        post: CapabilityState,
        r: Option<ControllerRef>,
    ) -> bool {
        if pre.controllers@.contains_key(id.0) {
            r == Some(
                ControllerRef { handle: pre.controllers@[id.0], fresh: false },
            ) && post.controllers@ =~= pre.controllers@ && post.manager == pre.manager
                && post.next_controller == pre.next_controller
        } else if pre.manager is Some {
            r == Some(ControllerRef { handle: pre.next_controller, fresh: true })
                && post.controllers@ =~= pre.controllers@.insert(id.0, pre.next_controller)
                && post.manager == pre.manager && post.next_controller == pre.next_controller + 1
        } else {
            r is None && post.controllers@ =~= pre.controllers@ && post.manager == pre.manager
                && post.next_controller == pre.next_controller
        }
    }

    /// A capability before any negotiation: no manager, no controllers.
    pub fn new() -> (r: CapabilityState)
        ensures
            r.wf(),
            r.manager is None,
            r.controllers@ =~= Map::<u64, ControllerHandle>::empty(),
            r.next_controller == 0,
    {
        CapabilityState { manager: None, controllers: KvList::new(), next_controller: 0 }
    }

    /// Record the outcome of negotiating this capability's global.
    pub fn set_manager(&mut self, manager: Option<ManagerHandle>)
        requires
            old(self).wf(),
        ensures
            final(self).wf(),
            final(self).manager == manager,
            final(self).controllers@ =~= old(self).controllers@,
            final(self).next_controller == old(self).next_controller,
    {
        self.manager = manager;
    }

    /// Whether the capability was negotiated successfully.
    pub fn is_available(&self) -> (r: bool)
        ensures
            r == (self.manager is Some),
    {
        self.manager.is_some()
    }

    /// The cached controller of `id`, if one exists.
    pub fn controller_of(&self, id: Id) -> (r: Option<ControllerHandle>)
        requires
            self.wf(),
        ensures
            r is Some <==> self.controllers@.contains_key(id.0),
            r is Some ==> r->0 == self.controllers@[id.0],
    {
        match self.controllers.get(id.0) {
            Some(h) => Some(*h),
            None => None,
        }
    }

    /// Return `id`'s cached controller, or name a fresh one through the
    /// manager and cache it. Without a manager and without a cached
    /// controller, the capability degrades to a no-op: `None`.
    pub fn get_or_create_controller(&mut self, id: Id) -> (r: Option<ControllerRef>)
        requires
            old(self).wf(),
            old(self).next_controller < u64::MAX,
        ensures
            final(self).wf(),
            CapabilityState::spec_get_or_create(*old(self), id, *final(self), r),
            final(self).controllers@.contains_key(id.0) <==> (old(
                self,
            ).controllers@.contains_key(id.0) || old(self).manager is Some),
    {
        match self.controllers.get(id.0) {
            Some(h) => Some(ControllerRef { handle: *h, fresh: false }),
            None => {
                if self.manager.is_some() {
                    let handle = self.next_controller;
                    self.controllers.insert(id.0, handle);
                    self.next_controller = self.next_controller + 1;
                    Some(ControllerRef { handle, fresh: true })
                } else {
                    None
                }
            },
        }
    }

    /// Drop the controller cached for `id`, if any; its protocol object
    /// dies with the surface. Returns the dropped handle.
    pub fn remove_surface(&mut self, id: Id) -> (r: Option<ControllerHandle>)
        requires
            old(self).wf(),
        ensures
            final(self).wf(),
            final(self).controllers@ =~= old(self).controllers@.remove(id.0),
            !final(self).controllers@.contains_key(id.0),
            r is Some <==> old(self).controllers@.contains_key(id.0),
            r is Some ==> r->0 == old(self).controllers@[id.0],
            final(self).manager == old(self).manager,
            final(self).next_controller == old(self).next_controller,
    {
        let existing = self.controller_of(id);
        self.controllers.remove(id.0);
        existing
    }
}

/// For any sequence of create/get operations on one surface identity,
/// exactly one controller is created, regardless of call count: a call
/// that finds the manager and no cache creates one and caches it; from
/// any state that caches a controller for the identity, every later
/// call returns that same handle, creates nothing, and leaves the
/// capability unchanged.
pub proof fn lemma_controller_created_exactly_once(
    s0: CapabilityState,
    s1: CapabilityState,
    s2: CapabilityState,
    id: Id,
    r1: Option<ControllerRef>,
    r2: Option<ControllerRef>,
)
    requires
        s0.manager is Some,
        !s0.controllers@.contains_key(id.0),
        CapabilityState::spec_get_or_create(s0, id, s1, r1),
        CapabilityState::spec_get_or_create(s1, id, s2, r2),
    ensures
        r1 == Some(ControllerRef { handle: s0.next_controller, fresh: true }),
        r2 == Some(ControllerRef { handle: s0.next_controller, fresh: false }),
        s2.controllers@ =~= s1.controllers@,
        s1.controllers@[id.0] == r1->0.handle,
{
}

/// From a state that already caches a controller for the identity, a
/// create/get operation never creates another and never changes the
/// cache — however often it is repeated.
pub proof fn lemma_controller_cached_is_stable(
    s0: CapabilityState,
    s1: CapabilityState,
    id: Id,
    r: Option<ControllerRef>,
)
    requires
        s0.controllers@.contains_key(id.0),
        CapabilityState::spec_get_or_create(s0, id, s1, r),
    ensures
        r == Some(ControllerRef { handle: s0.controllers@[id.0], fresh: false }),
        s1.controllers@ =~= s0.controllers@,
        s1.next_controller == s0.next_controller,
        s1.controllers@.contains_key(id.0),
{
}

/// Absence of a manager degrades the operation to a no-op: nothing is
/// created and nothing changes.
pub proof fn lemma_no_manager_degrades(
    s0: CapabilityState,
    s1: CapabilityState,
    id: Id,
    r: Option<ControllerRef>,
)
    requires
        s0.manager is None,
        !s0.controllers@.contains_key(id.0),
        CapabilityState::spec_get_or_create(s0, id, s1, r),
    ensures
        r is None,
        s1.controllers@ =~= s0.controllers@,
{
}

} // verus!
