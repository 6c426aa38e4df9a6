//! The corner-radius capability: rounding a surface's corners. One
//! controller per surface, created through the corner-radius manager
//! global when it was negotiated.

use vstd::prelude::*;

use crate::shell::SurfaceHandle;

verus! {

/// Data of one corner-radius controller: the surface it rounds.
#[derive(Debug, Clone, Copy, PartialEq, Eq, Structural)]
pub struct CornerRadiusData {
    pub surface: SurfaceHandle,
}

} // verus!
