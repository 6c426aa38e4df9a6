//! Foreign window (toplevel) tracking.
//!
//! The compositor advertises every opened window through one of two
//! protocol families: a standard listing protocol extended by a desktop
//! extension for state info and control, or an older manager protocol
//! that carries both. The engine keeps one record per advertised
//! window, keyed by the handle's protocol id, and translates the raw
//! per-handle events into [`ForeignToplevelEvent`] values.

use vstd::prelude::*;

verus! {

/// Information about one foreign window.
#[derive(Debug, Clone, PartialEq, Eq)]
pub struct ToplevelInfo {
    /// The handle's protocol object id.
    pub id: u32,
    /// The window title.
    pub title: String,
    /// The application id.
    pub app_id: String,
    /// Whether the window is focused.
    pub is_activated: bool,
    /// Whether the window is maximized.
    pub is_maximized: bool,
    /// Whether the window is minimized.
    pub is_minimized: bool,
    /// Whether the window is fullscreen.
    pub is_fullscreen: bool,
}

impl ToplevelInfo {
    /// A display name for this window: its title, or its application
    /// id where the title is empty.
    pub fn display_name(&self) -> (r: &str)
        ensures
            self.title@.len() == 0 ==> r@ == self.app_id@,
            self.title@.len() > 0 ==> r@ == self.title@,
    {
        if self.title.as_str().is_empty() {
            self.app_id.as_str()
        } else {
            self.title.as_str()
        }
    }
}

/// A foreign-window event delivered to the caller.
#[derive(Debug, Clone, PartialEq, Eq)]
pub enum ForeignToplevelEvent {
    /// A new window appeared, with its first complete info.
    Created(ToplevelInfo),
    /// A window's title, application id or state changed.
    Changed(ToplevelInfo),
    /// The window with this handle id closed.
    Closed(u32),
    /// The compositor stopped sending window events.
    Finished,
}

/// The buffered state of one window handle, updated property by
/// property and published on the protocol's "done" signal.
#[derive(Debug, Clone, PartialEq, Eq)]
pub struct ToplevelHandleData {
    pub title: String,
    pub app_id: String,
    pub is_activated: bool,
    pub is_maximized: bool,
    pub is_minimized: bool,
    pub is_fullscreen: bool,
    /// Whether the first "done" signal has been seen.
    pub initialized: bool,
}

impl ToplevelHandleData {
    /// Empty state for a new handle.
    pub fn new() -> (r: ToplevelHandleData)
        ensures
            r.title@ == Seq::<char>::empty(),
            r.app_id@ == Seq::<char>::empty(),
            !r.is_activated && !r.is_maximized && !r.is_minimized && !r.is_fullscreen,
            !r.initialized,
    {
        ToplevelHandleData {
            title: String::new(),
            app_id: String::new(),
            is_activated: false,
            is_maximized: false,
            is_minimized: false,
            is_fullscreen: false,
            initialized: false,
        }
    }

    /// Publish this state as the info of handle `id`.
    pub fn to_info(&self, id: u32) -> (r: ToplevelInfo)
        ensures
            r.id == id,
            r.title@ == self.title@,
            r.app_id@ == self.app_id@,
            r.is_activated == self.is_activated,
            r.is_maximized == self.is_maximized,
            r.is_minimized == self.is_minimized,
            r.is_fullscreen == self.is_fullscreen,
    {
        ToplevelInfo {
            id,
            title: self.title.clone(),
            app_id: self.app_id.clone(),
            is_activated: self.is_activated,
            is_maximized: self.is_maximized,
            is_minimized: self.is_minimized,
            is_fullscreen: self.is_fullscreen,
        }
    }
}

/// The numeric codes a protocol variant uses in its state array. The
/// mapping is protocol-version-specific configuration, not a fixed
/// constant of the engine.
#[derive(Debug, Clone, Copy, PartialEq, Eq, Structural)]
pub struct ToplevelStateCodes {
    pub maximized: u32,
    pub minimized: u32,
    pub activated: u32,
    pub fullscreen: u32,
}

impl ToplevelStateCodes {
    /// The codes both supported protocol variants document.
    pub fn protocol_default() -> (r: ToplevelStateCodes)
        ensures
            r == (ToplevelStateCodes {
                maximized: 0u32,
                minimized: 1u32,
                activated: 2u32,
                fullscreen: 3u32,
            }),
    {
        ToplevelStateCodes { maximized: 0, minimized: 1, activated: 2, fullscreen: 3 }
    }
}

/// Rebuild the four state flags of a handle from the state array the
/// compositor sent, decoded as numeric codes. Every flag is reset
/// first; a flag is set exactly when its code occurs; an unrecognized
/// code is skipped, never an error.
pub fn apply_state_array(data: &mut ToplevelHandleData, codes: ToplevelStateCodes, values: &Vec<
    u32,
>)
    ensures
        final(data).is_maximized == values@.contains(codes.maximized),
        final(data).is_minimized == values@.contains(codes.minimized),
        final(data).is_activated == values@.contains(codes.activated),
        final(data).is_fullscreen == values@.contains(codes.fullscreen),
        final(data).title == old(data).title,
        final(data).app_id == old(data).app_id,
        final(data).initialized == old(data).initialized,
{
    data.is_activated = false;
    data.is_maximized = false;
    data.is_minimized = false;
    data.is_fullscreen = false;
    let mut i: usize = 0;
    while i < values.len()
        invariant
            i <= values@.len(),
            data.is_maximized == values@.take(i as int).contains(codes.maximized),
            data.is_minimized == values@.take(i as int).contains(codes.minimized),
            data.is_activated == values@.take(i as int).contains(codes.activated),
            data.is_fullscreen == values@.take(i as int).contains(codes.fullscreen),
            data.title == old(data).title,
            data.app_id == old(data).app_id,
            data.initialized == old(data).initialized,
        decreases values@.len() - i,
    {
        let value = values[i];
        if value == codes.maximized {
            data.is_maximized = true;
        }
        if value == codes.minimized {
            data.is_minimized = true;
        }
        if value == codes.activated {
            data.is_activated = true;
        }
        if value == codes.fullscreen {
            data.is_fullscreen = true;
        }
        proof {
            assert forall|c: u32| values@.take(i + 1).contains(c) implies values@.take(
                i as int,
            ).contains(c) || values@[i as int] == c by {
                let j = choose|j: int| 0 <= j < i + 1 && #[trigger] values@.take(i + 1)[j] == c;
                if j < i {
                    assert(values@.take(i as int)[j] == c);
                }
            }
            assert forall|c: u32|
                values@.take(i as int).contains(c) implies values@.take(i + 1).contains(c) by {
                let j = choose|j: int| 0 <= j < i && #[trigger] values@.take(i as int)[j] == c;
                assert(values@.take(i + 1)[j] == c);
            }
            assert(values@.take(i + 1)[i as int] == value);
            assert(values@.take(i + 1).contains(value));
        }
        i = i + 1;
    }
    proof {
        assert(values@.take(values@.len() as int) =~= values@);
    }
}

/// An action the caller asks to perform on a foreign window, named by
/// its handle id.
#[derive(Debug, Clone, Copy, PartialEq, Eq, Structural)]
pub enum ToplevelAction {
    /// Focus the window.
    Activate(u32),
    /// Ask the window to close; an unresponsive one may ignore it.
    Close(u32),
    /// Kill the window's client; only the newer control protocol
    /// offers this.
    ForceClose(u32),
    SetMaximized(u32),
    UnsetMaximized(u32),
    SetMinimized(u32),
    UnsetMinimized(u32),
    SetFullscreen(u32),
    UnsetFullscreen(u32),
}

impl ToplevelAction {
    /// The handle id the action concerns.
    pub fn handle_id(&self) -> (r: u32)
        ensures
            r == self.spec_handle_id(),
    {
        match self {
            ToplevelAction::Activate(id) => *id,
            ToplevelAction::Close(id) => *id,
            ToplevelAction::ForceClose(id) => *id,
            ToplevelAction::SetMaximized(id) => *id,
            ToplevelAction::UnsetMaximized(id) => *id,
            ToplevelAction::SetMinimized(id) => *id,
            ToplevelAction::UnsetMinimized(id) => *id,
            ToplevelAction::SetFullscreen(id) => *id,
            ToplevelAction::UnsetFullscreen(id) => *id,
        }
    }

    /// The handle id the action concerns.
    pub open spec fn spec_handle_id(self) -> u32 {
        match self {
            ToplevelAction::Activate(id) => id,
            ToplevelAction::Close(id) => id,
            ToplevelAction::ForceClose(id) => id,
            ToplevelAction::SetMaximized(id) => id,
            ToplevelAction::UnsetMaximized(id) => id,
            ToplevelAction::SetMinimized(id) => id,
            ToplevelAction::UnsetMinimized(id) => id,
            ToplevelAction::SetFullscreen(id) => id,
            ToplevelAction::UnsetFullscreen(id) => id,
        }
    }
}

/// Marker data of the older manager protocol's global.
#[derive(Debug, Clone, Copy, PartialEq, Eq, Structural)]
pub struct ForeignToplevelManagerData;

/// Marker data of the older manager protocol's window handles.
#[derive(Debug, Clone, Copy, PartialEq, Eq, Structural)]
pub struct ToplevelHandleUserData;

/// Marker data of the desktop extension's control global.
#[derive(Debug, Clone, Copy, PartialEq, Eq, Structural)]
pub struct CosmicToplevelManagerData;

/// Marker data of the standard listing protocol's global.
#[derive(Debug, Clone, Copy, PartialEq, Eq, Structural)]
pub struct ExtForeignToplevelListData;

/// Marker data of the standard listing protocol's window handles.
#[derive(Debug, Clone, Copy, PartialEq, Eq, Structural)]
pub struct ExtToplevelHandleData;

/// Marker data of the desktop extension's info global.
#[derive(Debug, Clone, Copy, PartialEq, Eq, Structural)]
pub struct CosmicToplevelInfoData;

/// Data of a desktop-extension window handle: the standard handle it
/// extends.
#[derive(Debug, Clone, Copy, PartialEq, Eq, Structural)]
pub struct CosmicToplevelHandleData {
    /// The protocol id of the standard listing handle this extends.
    pub ext_handle_id: u32,
}

} // verus!
