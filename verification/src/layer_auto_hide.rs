//! The auto-hide capability: the compositor slides a surface off a
//! screen edge when the cursor leaves it and animates it back when the
//! edge zone is hovered. One controller per surface.

use vstd::prelude::*;

use crate::shell::SurfaceHandle;

verus! {

/// Data of one auto-hide controller: the surface it hides.
#[derive(Debug, Clone, Copy, PartialEq, Eq, Structural)]
pub struct LayerAutoHideData {
    pub surface: SurfaceHandle,
}

} // verus!
