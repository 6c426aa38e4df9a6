//! Multi-seat input demultiplexing.
//!
//! Pointer and touch events are routed to the surface the device
//! currently occupies. The device-to-surface slots are keyed by an
//! optional per-touch-point identifier: the pointer has its own slot,
//! and each touch point id has one, so concurrent touches and the
//! pointer stay independent. Keyboard state tracks the autorepeat
//! settings the compositor advertised and the timer token of the armed
//! repeat, whose cancellation is staged for the driver.

use vstd::prelude::*;

use crate::id::Id;
use crate::kvlist::KvList;
use crate::shell::SurfaceHandle;

verus! {

/// Where a device currently points: a surface object, and the unit it
/// belongs to, if the engine knows one.
#[derive(Debug, Clone, Copy, PartialEq, Eq)]
pub struct ActiveTarget {
    pub surface: SurfaceHandle,
    pub unit: Option<Id>,
}

/// A touch position in signed 24.8 fixed-point protocol coordinates.
#[derive(Debug, Clone, Copy, PartialEq, Eq, Structural)]
pub struct FingerPosition {
    pub x: i32,
    pub y: i32,
}

/// The store key of a touch point id.
pub open spec fn spec_touch_key(id: i32) -> u64 {
    (id + 0x8000_0000i64) as u64
}

/// Map a touch point id into the keyed store's key space.
pub fn touch_key(id: i32) -> (r: u64)
    ensures
        r == spec_touch_key(id),
{
    (id as i64 + 0x8000_0000i64) as u64
}

/// Distinct touch point ids use distinct store keys.
pub proof fn lemma_touch_key_injective(a: i32, b: i32)
    requires
        a != b,
    ensures
        spec_touch_key(a) != spec_touch_key(b),
{
}

/// One tracked touch point: its protocol id, the slot it occupies,
/// and its last known position.
#[derive(Debug, Clone, Copy, PartialEq, Eq)]
pub struct TouchPoint {
    pub touch_id: i32,
    pub target: ActiveTarget,
    pub position: FingerPosition,
}

/// The device-to-surface slots of one seat: one slot for the pointer,
/// one per touch point id.
#[derive(Debug, Clone)]
pub struct ActiveSurfaces {
    pub pointer: Option<ActiveTarget>,
    pub touch: KvList<TouchPoint>,
}

impl ActiveSurfaces {
    /// Keys are distinct, and every record sits under its own touch
    /// id's key.
    pub open spec fn wf(self) -> bool {
        &&& self.touch.wf()
        &&& forall|k: u64|
            self.touch@.contains_key(k) ==> spec_touch_key(#[trigger] self.touch@[k].touch_id)
                == k
    }

    /// No device occupies any surface.
    pub fn new() -> (r: ActiveSurfaces)
        ensures
            r.wf(),
            r.pointer is None,
            r.touch@ =~= Map::<u64, TouchPoint>::empty(),
    {
        ActiveSurfaces { pointer: None, touch: KvList::new() }
    }

    /// A finger went down on a surface: its slot and position are
    /// (re)bound. The pointer slot and every other touch id keep their
    /// slots.
    pub fn touch_down(&mut self, id: i32, target: ActiveTarget, position: FingerPosition)
        requires
            old(self).wf(),
        ensures
            final(self).wf(),
            final(self).touch@ =~= old(self).touch@.insert(
                spec_touch_key(id),
                TouchPoint { touch_id: id, target, position },
            ),
            final(self).pointer == old(self).pointer,
    {
        self.touch.upsert(touch_key(id), TouchPoint { touch_id: id, target, position });
    }

    /// A finger went up: its record is taken out and handed back. The
    /// pointer slot and every other touch id keep their slots.
    pub fn touch_up(&mut self, id: i32) -> (r: Option<TouchPoint>)
        requires
            old(self).wf(),
        ensures
            final(self).wf(),
            r is Some <==> old(self).touch@.contains_key(spec_touch_key(id)),
            r is Some ==> r->0 == old(self).touch@[spec_touch_key(id)],
            final(self).touch@ =~= old(self).touch@.remove(spec_touch_key(id)),
            final(self).pointer == old(self).pointer,
    {
        let key = touch_key(id);
        let record = match self.touch.get(key) {
            Some(t) => Some(*t),
            None => None,
        };
        self.touch.remove(key);
        record
    }

    /// A finger moved: its position is updated and its slot read; a
    /// finger that was never down is not recorded. The pointer slot
    /// and every other touch id keep their slots.
    pub fn touch_motion(&mut self, id: i32, position: FingerPosition) -> (r: Option<ActiveTarget>)
        requires
            old(self).wf(),
        ensures
            final(self).wf(),
            r is Some <==> old(self).touch@.contains_key(spec_touch_key(id)),
            r is Some ==> r->0 == old(self).touch@[spec_touch_key(id)].target && final(self).touch@ =~= old(self).touch@.insert(
                spec_touch_key(id),
                TouchPoint {
                    touch_id: id,
                    target: old(self).touch@[spec_touch_key(id)].target,
                    position,
                },
            ),
            r is None ==> final(self).touch@ =~= old(self).touch@,
            final(self).pointer == old(self).pointer,
    {
        let key = touch_key(id);
        match self.touch.get(key) {
            Some(record) => {
                let target = record.target;
                self.touch.upsert(key, TouchPoint { touch_id: id, target, position });
                Some(target)
            },
            None => None,
        }
    }

    /// The touch session was cancelled: every touch record is dropped
    /// and handed back, and the pointer keeps its slot.
    pub fn touch_cancel(&mut self) -> (r: Vec<(u64, TouchPoint)>)
        requires
            old(self).wf(),
        ensures
            final(self).wf(),
            final(self).touch@ =~= Map::<u64, TouchPoint>::empty(),
            final(self).pointer == old(self).pointer,
            r@ == old(self).touch.entries@,
    {
        let mut touch = KvList::new();
        core::mem::swap(&mut touch, &mut self.touch);
        touch.entries
    }

    /// The pointer entered a surface: its slot is bound. Touch slots
    /// keep theirs.
    pub fn pointer_enter(&mut self, target: ActiveTarget)
        requires
            old(self).wf(),
        ensures
            final(self).wf(),
            final(self).pointer == Some(target),
            final(self).touch@ =~= old(self).touch@,
    {
        self.pointer = Some(target);
    }

    /// The pointer left its surface: the slot is taken out and handed
    /// back. Touch slots keep theirs.
    pub fn pointer_leave(&mut self) -> (r: Option<ActiveTarget>)
        requires
            old(self).wf(),
        ensures
            final(self).wf(),
            r == old(self).pointer,
            final(self).pointer is None,
            final(self).touch@ =~= old(self).touch@,
    {
        self.pointer.take()
    }

    /// The slot the pointer occupies, if any.
    pub fn pointer_target(&self) -> (r: Option<ActiveTarget>)
        ensures
            r == self.pointer,
    {
        self.pointer
    }
}

/// Touch point identifiers are independent: binding, moving or lifting
/// touch id `a` never changes the pointer slot, and never changes the
/// slot of another touch id `b`.
pub proof fn lemma_touch_points_independent(
    pre: ActiveSurfaces,
    post: ActiveSurfaces,
    a: i32,
    b: i32,
)
    requires
        a != b,
        post.pointer == pre.pointer,
        (post.touch@ =~= pre.touch@.insert(spec_touch_key(a), post.touch@[spec_touch_key(a)]))
            || (post.touch@ =~= pre.touch@.remove(spec_touch_key(a))) || post.touch@
            =~= pre.touch@,
    ensures
        post.pointer == pre.pointer,
        post.touch@.contains_key(spec_touch_key(b)) == pre.touch@.contains_key(spec_touch_key(b)),
        pre.touch@.contains_key(spec_touch_key(b)) ==> post.touch@[spec_touch_key(b)]
            == pre.touch@[spec_touch_key(b)],
{
    lemma_touch_key_injective(a, b);
}

/// A cancelled touch session keeps the pointer slot: the pointer is
/// unaffected, only touch ids are cleared.
pub proof fn lemma_touch_cancel_keeps_pointer(pre: ActiveSurfaces, post: ActiveSurfaces)
    requires
        post.pointer == pre.pointer,
        post.touch@ =~= Map::<u64, TouchPoint>::empty(),
    ensures
        post.pointer == pre.pointer,
{
}

/// The compositor-advertised keyboard autorepeat settings.
#[derive(Debug, Clone, Copy, PartialEq, Eq, Structural)]
pub enum RepeatInfo {
    /// Keys repeat: first after `delay_millis`, from there on one every
    /// `gap_micros` microseconds.
    Repeat { gap_micros: u64, delay_millis: u64 },
    /// Autorepeat is disabled.
    Disable,
}

/// A one-shot repeat timer the driver armed, named by its token.
pub type TimerToken = u64;

/// Keyboard state of one seat: the protocol object, the key currently
/// repeating, the advertised repeat settings, and the armed repeat
/// timer's token.
#[derive(Debug, Clone, Copy, PartialEq, Eq)]
pub struct KeyboardState {
    pub keyboard: u32,
    pub current_repeat: Option<u32>,
    pub repeat_info: RepeatInfo,
    pub repeat_token: Option<TimerToken>,
}

impl KeyboardState {
    /// A fresh keyboard: nothing repeats, the protocol default repeat
    /// rate applies until the compositor advertises one.
    pub fn new(keyboard: u32) -> (r: KeyboardState)
        ensures
            r.keyboard == keyboard,
            r.current_repeat is None,
            r.repeat_info == (RepeatInfo::Repeat { gap_micros: 40000u64, delay_millis: 600u64 }),
            r.repeat_token is None,
    {
        KeyboardState {
            keyboard,
            current_repeat: None,
            repeat_info: RepeatInfo::Repeat { gap_micros: 40000, delay_millis: 600 },
            repeat_token: None,
        }
    }
}

} // verus!
