//! The home-visibility capability: tying a surface's visibility to
//! whether the compositor is in home mode (no regular windows
//! visible). The manager global also reports the compositor-wide home
//! state.

use vstd::prelude::*;

use crate::shell::SurfaceHandle;

verus! {

/// Data of the home-visibility manager: the last home state it
/// reported.
#[derive(Debug, Clone, Copy, PartialEq, Eq, Structural)]
pub struct HomeVisibilityManagerData {
    /// True while the compositor is at home, with no windows visible.
    pub is_home: bool,
}

impl HomeVisibilityManagerData {
    /// Before the first report, the compositor counts as not at home.
    pub fn new() -> (r: HomeVisibilityManagerData)
        ensures
            r.is_home == false,
    {
        HomeVisibilityManagerData { is_home: false }
    }
}

/// Data of one visibility controller: the surface it controls.
#[derive(Debug, Clone, Copy, PartialEq, Eq, Structural)]
pub struct HomeVisibilityData {
    pub surface: SurfaceHandle,
}

/// Implemented by the state that consumes home-state reports.
pub trait HomeVisibilityHandler {
    /// Called when the compositor's home state changes.
    fn home_state_changed(&mut self, is_home: bool);
}

} // verus!
