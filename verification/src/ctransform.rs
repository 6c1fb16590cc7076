//! A per-instance pose: nonuniform scale, Euler rotation (x applied first,
//! then y, then z) and translation. The pose produces its 4×4 affine matrix
//! on demand and never caches it, since the rotation mutates every frame.
//!
//! Each rotation angle lives here as its sine/cosine pair, which is all the
//! matrix reads of it; whoever advances the angles supplies fresh pairs.

use vstd::prelude::*;

verus! {

use crate::cmatrix::{Matrix4x4, SinCos};
use crate::fixed::{FX_ONE, fxm, fxa, fxs, fxn, fx_mul, sat_add, sat_sub, sat_neg};

pub struct CTransform {
    pub scale: (i64, i64, i64),
    pub rot: (SinCos, SinCos, SinCos),
    pub pos: (i64, i64, i64),
}

/// The affine matrix of a pose: per-axis scale, then the composed rotation
/// `Rz · Ry · Rx` written out in closed form, then translation in the last
/// column.
pub open spec fn as_matrix_spec(t: CTransform) -> Matrix4x4 {
    let (kx, ky, kz) = t.scale;
    let (sx, sy, sz) = (t.rot.0.s, t.rot.1.s, t.rot.2.s);
    let (cx, cy, cz) = (t.rot.0.c, t.rot.1.c, t.rot.2.c);
    let (tx, ty, tz) = t.pos;
    Matrix4x4 {
        e11: fxm(fxm(kx, cy), cz),
        e12: fxm(ky, fxs(fxm(fxm(sx, sy), cz), fxm(sz, cx))),
        e13: fxm(kz, fxa(fxm(fxm(sy, cx), cz), fxm(sx, sz))),
        e14: tx,
        e21: fxm(fxm(kx, sz), cy),
        e22: fxm(ky, fxa(fxm(fxm(sx, sy), sz), fxm(cx, cz))),
        e23: fxm(kz, fxs(fxm(fxm(sy, sz), cx), fxm(sx, cz))),
        e24: ty,
        e31: fxm(fxn(kx), sy),
        e32: fxm(fxm(ky, sx), cy),
        e33: fxm(fxm(kz, cx), cy),
        e34: tz,
        e41: 0,
        e42: 0,
        e43: 0,
        e44: FX_ONE,
    }
}

impl CTransform {
    /// The pose's affine matrix, recomputed from the current fields.
    #[allow(non_snake_case)]
    pub fn asMatrix(&self) -> (m: Matrix4x4)
        ensures
            m == as_matrix_spec(*self),
    {
        let (kx, ky, kz): (i64, i64, i64) = self.scale;
        let (sx, sy, sz): (i64, i64, i64) = (self.rot.0.s, self.rot.1.s, self.rot.2.s);
        let (cx, cy, cz): (i64, i64, i64) = (self.rot.0.c, self.rot.1.c, self.rot.2.c);
        let (tx, ty, tz): (i64, i64, i64) = self.pos;

        Matrix4x4 {
            e11: fx_mul(fx_mul(kx, cy), cz),
            e12: fx_mul(ky, sat_sub(fx_mul(fx_mul(sx, sy), cz), fx_mul(sz, cx))),
            e13: fx_mul(kz, sat_add(fx_mul(fx_mul(sy, cx), cz), fx_mul(sx, sz))),
            e14: tx,
            e21: fx_mul(fx_mul(kx, sz), cy),
            e22: fx_mul(ky, sat_add(fx_mul(fx_mul(sx, sy), sz), fx_mul(cx, cz))),
            e23: fx_mul(kz, sat_sub(fx_mul(fx_mul(sy, sz), cx), fx_mul(sx, cz))),
            e24: ty,
            e31: fx_mul(sat_neg(kx), sy),
            e32: fx_mul(fx_mul(ky, sx), cy),
            e33: fx_mul(fx_mul(kz, cx), cy),
            e34: tz,
            e41: 0,
            e42: 0,
            e43: 0,
            e44: FX_ONE,
        }
    }
}

/// A pose at position `(x, y, z)` with unit scale and no rotation.
pub fn new(x: i64, y: i64, z: i64) -> (t: CTransform)
    ensures
        t.scale == (FX_ONE, FX_ONE, FX_ONE),
        t.rot == ((SinCos { s: 0i64, c: FX_ONE }), (SinCos { s: 0i64, c: FX_ONE }),
            (SinCos { s: 0i64, c: FX_ONE })),
        t.pos == (x, y, z),
{
    CTransform {
        scale: (FX_ONE, FX_ONE, FX_ONE),
        rot: (
            SinCos { s: 0, c: FX_ONE },
            SinCos { s: 0, c: FX_ONE },
            SinCos { s: 0, c: FX_ONE },
        ),
        pos: (x, y, z),
    }
}

} // verus!
