//! The blur capability: a compositor effect blurring what is behind a
//! surface. One controller per surface, created through the blur
//! manager global when it was negotiated.

use vstd::prelude::*;

use crate::shell::SurfaceHandle;

verus! {

/// Data of one blur controller: the surface it blurs.
#[derive(Debug, Clone, Copy, PartialEq, Eq, Structural)]
pub struct BlurData {
    pub surface: SurfaceHandle,
}

} // verus!
