//! The hide/show capability: hiding a surface without destroying it.
//! A hidden surface is not rendered and receives no input, but keeps
//! its configuration.

use vstd::prelude::*;

use crate::shell::SurfaceHandle;

verus! {

/// Marker data of the visibility manager global.
#[derive(Debug, Clone, Copy, PartialEq, Eq, Structural)]
pub struct LayerSurfaceVisibilityManagerData;

/// Data of one visibility controller: its surface, and whether the
/// engine asked for it to be hidden.
#[derive(Debug, Clone, Copy, PartialEq, Eq, Structural)]
pub struct LayerSurfaceVisibilityData {
    pub surface: SurfaceHandle,
    pub hidden: bool,
}

/// Implemented by the state that consumes visibility reports.
pub trait LayerSurfaceVisibilityHandler {
    /// Called when the compositor reports a surface's visibility.
    fn surface_visibility_changed(&mut self, surface: SurfaceHandle, visible: bool);
}

} // verus!
