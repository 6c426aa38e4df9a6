//! The dismiss capability: an armed surface is told when the user
//! clicks or touches outside its dismiss group, so menus and popups
//! can close themselves.

use vstd::prelude::*;

use crate::shell::SurfaceHandle;

verus! {

/// Marker data of the dismiss manager global.
#[derive(Debug, Clone, Copy, PartialEq, Eq, Structural)]
pub struct LayerSurfaceDismissManagerData;

/// Data of one dismiss controller: the surface it watches.
#[derive(Debug, Clone, Copy, PartialEq, Eq, Structural)]
pub struct LayerSurfaceDismissData {
    pub surface: SurfaceHandle,
}

/// Implemented by the state that consumes dismiss requests.
pub trait LayerSurfaceDismissHandler {
    /// Called when the user clicked or touched outside the armed
    /// surface's dismiss group.
    fn dismiss_requested(&mut self, surface: SurfaceHandle);
}

} // verus!
