//! The shadow capability: a compositor-drawn drop shadow under a
//! surface. One controller per surface, created through the shadow
//! manager global when it was negotiated.

use vstd::prelude::*;

use crate::shell::SurfaceHandle;

verus! {

/// Data of one shadow controller: the surface it shades.
#[derive(Debug, Clone, Copy, PartialEq, Eq, Structural)]
pub struct ShadowData {
    pub surface: SurfaceHandle,
}

} // verus!
