//! The camera: a horizontal field of view and a pose. The projection only
//! ever reads the sine of half the field of view, so that sine is what the
//! camera stores.

use vstd::prelude::*;

verus! {

use crate::ctransform::CTransform;
use crate::ctransform;
use crate::fixed::FX_ONE;
use crate::cmatrix::SinCos;

pub struct CCamera {
    /// The sine of half the horizontal field of view, fixed-point.
    pub fov_half_sin: i64,
    pub transform: CTransform,
}

/// The sine of half the default field of view of roughly 84.3 degrees
/// (1.47079632679 radians), fixed-point.
pub const DEFAULT_FOV_HALF_SIN: i64 = 43967;

/// A camera at the origin, looking down the positive z axis, with the
/// default field of view.
pub fn new() -> (c: CCamera)
    ensures
        c.fov_half_sin == DEFAULT_FOV_HALF_SIN,
        c.transform.scale == (FX_ONE, FX_ONE, FX_ONE),
        c.transform.rot == ((SinCos { s: 0i64, c: FX_ONE }), (SinCos { s: 0i64, c: FX_ONE }),
            (SinCos { s: 0i64, c: FX_ONE })),
        c.transform.pos == (0i64, 0i64, 0i64),
{
    CCamera {
        fov_half_sin: DEFAULT_FOV_HALF_SIN,
        transform: ctransform::new(0, 0, 0),
    }
}

} // verus!
