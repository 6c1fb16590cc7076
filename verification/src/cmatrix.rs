//! 3×3 and 4×4 row-major matrices over the fixed-point scalar, with the
//! vector transforms and compositions the pipeline is built from. Fields are
//! named in row-column notation: `e12` is row 1, column 2.

use vstd::prelude::*;

verus! {

use crate::fixed::{FX_ONE, fxm, fxa, fxn, fx_mul, sat_add, sat_neg, lemma_fx_mul_one_zero};
use crate::fixed::lemma_mul_bound;
use vstd::arithmetic::div_mod::{lemma_fundamental_div_mod, lemma_fundamental_div_mod_converse};

/// A 3×3 fixed-point matrix.
#[derive(Clone, Copy, Debug, PartialEq, Eq, Structural)]
pub struct Matrix3x3 {
    pub e11: i64,
    pub e12: i64,
    pub e13: i64,
    pub e21: i64,
    pub e22: i64,
    pub e23: i64,
    pub e31: i64,
    pub e32: i64,
    pub e33: i64,
}

/// A 4×4 fixed-point matrix.
#[derive(Clone, Copy, Debug, PartialEq, Eq, Structural)]
pub struct Matrix4x4 {
    pub e11: i64,
    pub e12: i64,
    pub e13: i64,
    pub e14: i64,
    pub e21: i64,
    pub e22: i64,
    pub e23: i64,
    pub e24: i64,
    pub e31: i64,
    pub e32: i64,
    pub e33: i64,
    pub e34: i64,
    pub e41: i64,
    pub e42: i64,
    pub e43: i64,
    pub e44: i64,
}

/// A 3×1 fixed-point column vector.
#[derive(Clone, Copy, Debug, PartialEq, Eq, Structural)]
pub struct Vec3 {
    pub e1: i64,
    pub e2: i64,
    pub e3: i64,
}

/// The sine and cosine of one rotation angle, as fixed-point scalars; an
/// angle enters the pipeline only through this pair.
#[derive(Clone, Copy, Debug, PartialEq, Eq, Structural)]
pub struct SinCos {
    pub s: i64,
    pub c: i64,
}

/// A fixed-point three-term dot product, each product rounded and the sum
/// saturating, left to right.
pub open spec fn dot3(a: i64, b: i64, c: i64, x: i64, y: i64, z: i64) -> i64 {
    fxa(fxa(fxm(a, x), fxm(b, y)), fxm(c, z))
}

/// A fixed-point four-term dot product.
pub open spec fn dot4(a: i64, b: i64, c: i64, d: i64, x: i64, y: i64, z: i64, w: i64) -> i64 {
    fxa(fxa(fxa(fxm(a, x), fxm(b, y)), fxm(c, z)), fxm(d, w))
}

pub open spec fn identity3_spec() -> Matrix3x3 {
    Matrix3x3 {
        e11: FX_ONE, e12: 0, e13: 0,
        e21: 0, e22: FX_ONE, e23: 0,
        e31: 0, e32: 0, e33: FX_ONE,
    }
}

pub open spec fn identity4_spec() -> Matrix4x4 {
    Matrix4x4 {
        e11: FX_ONE, e12: 0, e13: 0, e14: 0,
        e21: 0, e22: FX_ONE, e23: 0, e24: 0,
        e31: 0, e32: 0, e33: FX_ONE, e34: 0,
        e41: 0, e42: 0, e43: 0, e44: FX_ONE,
    }
}

/// `M · v` for a 3-vector as a column.
pub open spec fn apply3_spec(m: Matrix3x3, v: (i64, i64, i64)) -> (i64, i64, i64) {
    (
        dot3(m.e11, m.e12, m.e13, v.0, v.1, v.2),
        dot3(m.e21, m.e22, m.e23, v.0, v.1, v.2),
        dot3(m.e31, m.e32, m.e33, v.0, v.1, v.2),
    )
}

/// `M · v` for a homogeneous 4-vector as a column.
pub open spec fn apply4_spec(m: Matrix4x4, v: (i64, i64, i64, i64)) -> (i64, i64, i64, i64) {
    (
        dot4(m.e11, m.e12, m.e13, m.e14, v.0, v.1, v.2, v.3),
        dot4(m.e21, m.e22, m.e23, m.e24, v.0, v.1, v.2, v.3),
        dot4(m.e31, m.e32, m.e33, m.e34, v.0, v.1, v.2, v.3),
        dot4(m.e41, m.e42, m.e43, m.e44, v.0, v.1, v.2, v.3),
    )
}

/// The matrix product `A · B` of two 3×3 matrices.
pub open spec fn mul3_spec(a: Matrix3x3, b: Matrix3x3) -> Matrix3x3 {
    Matrix3x3 {
        e11: dot3(a.e11, a.e12, a.e13, b.e11, b.e21, b.e31),
        e12: dot3(a.e11, a.e12, a.e13, b.e12, b.e22, b.e32),
        e13: dot3(a.e11, a.e12, a.e13, b.e13, b.e23, b.e33),
        e21: dot3(a.e21, a.e22, a.e23, b.e11, b.e21, b.e31),
        e22: dot3(a.e21, a.e22, a.e23, b.e12, b.e22, b.e32),
        e23: dot3(a.e21, a.e22, a.e23, b.e13, b.e23, b.e33),
        e31: dot3(a.e31, a.e32, a.e33, b.e11, b.e21, b.e31),
        e32: dot3(a.e31, a.e32, a.e33, b.e12, b.e22, b.e32),
        e33: dot3(a.e31, a.e32, a.e33, b.e13, b.e23, b.e33),
    }
}

/// The matrix product `A · B` of two 4×4 matrices.
pub open spec fn mul4_spec(a: Matrix4x4, b: Matrix4x4) -> Matrix4x4 {
    Matrix4x4 {
        e11: dot4(a.e11, a.e12, a.e13, a.e14, b.e11, b.e21, b.e31, b.e41),
        e12: dot4(a.e11, a.e12, a.e13, a.e14, b.e12, b.e22, b.e32, b.e42),
        e13: dot4(a.e11, a.e12, a.e13, a.e14, b.e13, b.e23, b.e33, b.e43),
        e14: dot4(a.e11, a.e12, a.e13, a.e14, b.e14, b.e24, b.e34, b.e44),
        e21: dot4(a.e21, a.e22, a.e23, a.e24, b.e11, b.e21, b.e31, b.e41),
        e22: dot4(a.e21, a.e22, a.e23, a.e24, b.e12, b.e22, b.e32, b.e42),
        e23: dot4(a.e21, a.e22, a.e23, a.e24, b.e13, b.e23, b.e33, b.e43),
        e24: dot4(a.e21, a.e22, a.e23, a.e24, b.e14, b.e24, b.e34, b.e44),
        e31: dot4(a.e31, a.e32, a.e33, a.e34, b.e11, b.e21, b.e31, b.e41),
        e32: dot4(a.e31, a.e32, a.e33, a.e34, b.e12, b.e22, b.e32, b.e42),
        e33: dot4(a.e31, a.e32, a.e33, a.e34, b.e13, b.e23, b.e33, b.e43),
        e34: dot4(a.e31, a.e32, a.e33, a.e34, b.e14, b.e24, b.e34, b.e44),
        e41: dot4(a.e41, a.e42, a.e43, a.e44, b.e11, b.e21, b.e31, b.e41),
        e42: dot4(a.e41, a.e42, a.e43, a.e44, b.e12, b.e22, b.e32, b.e42),
        e43: dot4(a.e41, a.e42, a.e43, a.e44, b.e13, b.e23, b.e33, b.e43),
        e44: dot4(a.e41, a.e42, a.e43, a.e44, b.e14, b.e24, b.e34, b.e44),
    }
}

/// The transpose of a 3×3 matrix.
pub open spec fn transpose3_spec(m: Matrix3x3) -> Matrix3x3 {
    Matrix3x3 {
        e11: m.e11, e12: m.e21, e13: m.e31,
        e21: m.e12, e22: m.e22, e23: m.e32,
        e31: m.e13, e32: m.e23, e33: m.e33,
    }
}

/// The rotation about the x axis by the angle whose sine and cosine are
/// given.
pub open spec fn rot_x_spec(r: SinCos) -> Matrix3x3 {
    Matrix3x3 {
        e11: FX_ONE, e12: 0, e13: 0,
        e21: 0, e22: r.c, e23: fxn(r.s),
        e31: 0, e32: r.s, e33: r.c,
    }
}

/// The rotation about the y axis.
pub open spec fn rot_y_spec(r: SinCos) -> Matrix3x3 {
    Matrix3x3 {
        e11: r.c, e12: 0, e13: r.s,
        e21: 0, e22: FX_ONE, e23: 0,
        e31: fxn(r.s), e32: 0, e33: r.c,
    }
}

/// The rotation about the z axis.
pub open spec fn rot_z_spec(r: SinCos) -> Matrix3x3 {
    Matrix3x3 {
        e11: r.c, e12: fxn(r.s), e13: 0,
        e21: r.s, e22: r.c, e23: 0,
        e31: 0, e32: 0, e33: FX_ONE,
    }
}

/// The composed Euler rotation `Rz · Ry · Rx`: x applied first, z last.
pub open spec fn rot3_spec(rx: SinCos, ry: SinCos, rz: SinCos) -> Matrix3x3 {
    mul3_spec(rot_z_spec(rz), mul3_spec(rot_y_spec(ry), rot_x_spec(rx)))
}

/// A 3×3 matrix embedded in the upper-left of a 4×4 with a unit last
/// diagonal entry.
pub open spec fn as4x4_spec(m: Matrix3x3) -> Matrix4x4 {
    Matrix4x4 {
        e11: m.e11, e12: m.e12, e13: m.e13, e14: 0,
        e21: m.e21, e22: m.e22, e23: m.e23, e24: 0,
        e31: m.e31, e32: m.e32, e33: m.e33, e34: 0,
        e41: 0, e42: 0, e43: 0, e44: FX_ONE,
    }
}

impl Matrix3x3 {
    /// The multiplicative identity.
    pub fn new() -> (m: Matrix3x3)
        ensures
            m == identity3_spec(),
    {
        Matrix3x3 {
            e11: FX_ONE, e12: 0, e13: 0,
            e21: 0, e22: FX_ONE, e23: 0,
            e31: 0, e32: 0, e33: FX_ONE,
        }
    }

    /// The composed Euler rotation `Rz · Ry · Rx` from the three angles'
    /// sine/cosine pairs.
    #[allow(non_snake_case)]
    pub fn new_rot(x_rot: SinCos, y_rot: SinCos, z_rot: SinCos) -> (m: Matrix3x3)
        ensures
            m == rot3_spec(x_rot, y_rot, z_rot),
    {
        let mut mx: Matrix3x3 = Matrix3x3::new();
        let mut my: Matrix3x3 = Matrix3x3::new();
        let mut mz: Matrix3x3 = Matrix3x3::new();

        mx.e22 = x_rot.c;
        mx.e32 = x_rot.s;
        mx.e23 = sat_neg(x_rot.s);
        mx.e33 = x_rot.c;

        my.e11 = y_rot.c;
        my.e13 = y_rot.s;
        my.e31 = sat_neg(y_rot.s);
        my.e33 = y_rot.c;

        mz.e11 = z_rot.c;
        mz.e21 = z_rot.s;
        mz.e12 = sat_neg(z_rot.s);
        mz.e22 = z_rot.c;

        matrix_3x3_mult(&mz, &matrix_3x3_mult(&my, &mx))
    }

    /// Replaces `v` with `M · v`.
    #[allow(non_snake_case)]
    pub fn applyTo(&self, v: &mut (i64, i64, i64))
        ensures
            *final(v) == apply3_spec(*self, *old(v)),
    {
        let (v1, v2, v3): (i64, i64, i64) = (v.0, v.1, v.2);
        v.0 = sat_add(sat_add(fx_mul(self.e11, v1), fx_mul(self.e12, v2)), fx_mul(self.e13, v3));
        v.1 = sat_add(sat_add(fx_mul(self.e21, v1), fx_mul(self.e22, v2)), fx_mul(self.e23, v3));
        v.2 = sat_add(sat_add(fx_mul(self.e31, v1), fx_mul(self.e32, v2)), fx_mul(self.e33, v3));
    }

    /// Transposes this matrix in place.
    pub fn transpose(&mut self)
        ensures
            *final(self) == transpose3_spec(*old(self)),
    {
        let m: Matrix3x3 = self.tranpose_copy();
        self.e11 = m.e11;
        self.e12 = m.e12;
        self.e13 = m.e13;
        self.e21 = m.e21;
        self.e22 = m.e22;
        self.e23 = m.e23;
        self.e31 = m.e31;
        self.e32 = m.e32;
        self.e33 = m.e33;
    }

    /// A transposed copy of this matrix.
    pub fn tranpose_copy(&self) -> (m: Matrix3x3)
        ensures
            m == transpose3_spec(*self),
    {
        Matrix3x3 {
            e11: self.e11,
            e12: self.e21,
            e13: self.e31,
            e21: self.e12,
            e22: self.e22,
            e23: self.e32,
            e31: self.e13,
            e32: self.e23,
            e33: self.e33,
        }
    }

    /// This matrix embedded in the upper-left of a 4×4 matrix.
    pub fn as4x4(&self) -> (m: Matrix4x4)
        ensures
            m == as4x4_spec(*self),
    {
        Matrix4x4 {
            e11: self.e11, e12: self.e12, e13: self.e13, e14: 0,
            e21: self.e21, e22: self.e22, e23: self.e23, e24: 0,
            e31: self.e31, e32: self.e32, e33: self.e33, e34: 0,
            e41: 0, e42: 0, e43: 0, e44: FX_ONE,
        }
    }
}

impl Matrix4x4 {
    /// The multiplicative identity.
    pub fn new() -> (m: Matrix4x4)
        ensures
            m == identity4_spec(),
    {
        Matrix4x4 {
            e11: FX_ONE, e12: 0, e13: 0, e14: 0,
            e21: 0, e22: FX_ONE, e23: 0, e24: 0,
            e31: 0, e32: 0, e33: FX_ONE, e34: 0,
            e41: 0, e42: 0, e43: 0, e44: FX_ONE,
        }
    }

    /// Replaces `v` with `M · v`.
    #[allow(non_snake_case)]
    pub fn applyTo(&self, v: &mut (i64, i64, i64, i64))
        ensures
            *final(v) == apply4_spec(*self, *old(v)),
    {
        let (v1, v2, v3, v4): (i64, i64, i64, i64) = (v.0, v.1, v.2, v.3);
        v.0 = sat_add(
            sat_add(sat_add(fx_mul(self.e11, v1), fx_mul(self.e12, v2)), fx_mul(self.e13, v3)),
            fx_mul(self.e14, v4),
        );
        v.1 = sat_add(
            sat_add(sat_add(fx_mul(self.e21, v1), fx_mul(self.e22, v2)), fx_mul(self.e23, v3)),
            fx_mul(self.e24, v4),
        );
        v.2 = sat_add(
            sat_add(sat_add(fx_mul(self.e31, v1), fx_mul(self.e32, v2)), fx_mul(self.e33, v3)),
            fx_mul(self.e34, v4),
        );
        v.3 = sat_add(
            sat_add(sat_add(fx_mul(self.e41, v1), fx_mul(self.e42, v2)), fx_mul(self.e43, v3)),
            fx_mul(self.e44, v4),
        );
    }
}

impl Vec3 {
    /// The zero vector.
    pub fn new() -> (v: Vec3)
        ensures
            v == (Vec3 { e1: 0i64, e2: 0i64, e3: 0i64 }),
    {
        Vec3 { e1: 0, e2: 0, e3: 0 }
    }
}

/// The 3×3 matrix product `A · B`.
#[allow(non_snake_case)]
pub fn matrix_3x3_mult(A: &Matrix3x3, B: &Matrix3x3) -> (m: Matrix3x3)
    ensures
        m == mul3_spec(*A, *B),
{
    Matrix3x3 {
        e11: sat_add(sat_add(fx_mul(A.e11, B.e11), fx_mul(A.e12, B.e21)), fx_mul(A.e13, B.e31)),
        e12: sat_add(sat_add(fx_mul(A.e11, B.e12), fx_mul(A.e12, B.e22)), fx_mul(A.e13, B.e32)),
        e13: sat_add(sat_add(fx_mul(A.e11, B.e13), fx_mul(A.e12, B.e23)), fx_mul(A.e13, B.e33)),
        e21: sat_add(sat_add(fx_mul(A.e21, B.e11), fx_mul(A.e22, B.e21)), fx_mul(A.e23, B.e31)),
        e22: sat_add(sat_add(fx_mul(A.e21, B.e12), fx_mul(A.e22, B.e22)), fx_mul(A.e23, B.e32)),
        e23: sat_add(sat_add(fx_mul(A.e21, B.e13), fx_mul(A.e22, B.e23)), fx_mul(A.e23, B.e33)),
        e31: sat_add(sat_add(fx_mul(A.e31, B.e11), fx_mul(A.e32, B.e21)), fx_mul(A.e33, B.e31)),
        e32: sat_add(sat_add(fx_mul(A.e31, B.e12), fx_mul(A.e32, B.e22)), fx_mul(A.e33, B.e32)),
        e33: sat_add(sat_add(fx_mul(A.e31, B.e13), fx_mul(A.e32, B.e23)), fx_mul(A.e33, B.e33)),
    }
}

/// The 4×4 matrix product `A · B`.
#[allow(non_snake_case)]
pub fn matrix_4x4_mult(A: &Matrix4x4, B: &Matrix4x4) -> (m: Matrix4x4)
    ensures
        m == mul4_spec(*A, *B),
{
    Matrix4x4 {
        e11: sat_add(sat_add(sat_add(fx_mul(A.e11, B.e11), fx_mul(A.e12, B.e21)),
            fx_mul(A.e13, B.e31)), fx_mul(A.e14, B.e41)),
        e12: sat_add(sat_add(sat_add(fx_mul(A.e11, B.e12), fx_mul(A.e12, B.e22)),
            fx_mul(A.e13, B.e32)), fx_mul(A.e14, B.e42)),
        e13: sat_add(sat_add(sat_add(fx_mul(A.e11, B.e13), fx_mul(A.e12, B.e23)),
            fx_mul(A.e13, B.e33)), fx_mul(A.e14, B.e43)),
        e14: sat_add(sat_add(sat_add(fx_mul(A.e11, B.e14), fx_mul(A.e12, B.e24)),
            fx_mul(A.e13, B.e34)), fx_mul(A.e14, B.e44)),
        e21: sat_add(sat_add(sat_add(fx_mul(A.e21, B.e11), fx_mul(A.e22, B.e21)),
            fx_mul(A.e23, B.e31)), fx_mul(A.e24, B.e41)),
        e22: sat_add(sat_add(sat_add(fx_mul(A.e21, B.e12), fx_mul(A.e22, B.e22)),
            fx_mul(A.e23, B.e32)), fx_mul(A.e24, B.e42)),
        e23: sat_add(sat_add(sat_add(fx_mul(A.e21, B.e13), fx_mul(A.e22, B.e23)),
            fx_mul(A.e23, B.e33)), fx_mul(A.e24, B.e43)),
        e24: sat_add(sat_add(sat_add(fx_mul(A.e21, B.e14), fx_mul(A.e22, B.e24)),
            fx_mul(A.e23, B.e34)), fx_mul(A.e24, B.e44)),
        e31: sat_add(sat_add(sat_add(fx_mul(A.e31, B.e11), fx_mul(A.e32, B.e21)),
            fx_mul(A.e33, B.e31)), fx_mul(A.e34, B.e41)),
        e32: sat_add(sat_add(sat_add(fx_mul(A.e31, B.e12), fx_mul(A.e32, B.e22)),
            fx_mul(A.e33, B.e32)), fx_mul(A.e34, B.e42)),
        e33: sat_add(sat_add(sat_add(fx_mul(A.e31, B.e13), fx_mul(A.e32, B.e23)),
            fx_mul(A.e33, B.e33)), fx_mul(A.e34, B.e43)),
        e34: sat_add(sat_add(sat_add(fx_mul(A.e31, B.e14), fx_mul(A.e32, B.e24)),
            fx_mul(A.e33, B.e34)), fx_mul(A.e34, B.e44)),
        e41: sat_add(sat_add(sat_add(fx_mul(A.e41, B.e11), fx_mul(A.e42, B.e21)),
            fx_mul(A.e43, B.e31)), fx_mul(A.e44, B.e41)),
        e42: sat_add(sat_add(sat_add(fx_mul(A.e41, B.e12), fx_mul(A.e42, B.e22)),
            fx_mul(A.e43, B.e32)), fx_mul(A.e44, B.e42)),
        e43: sat_add(sat_add(sat_add(fx_mul(A.e41, B.e13), fx_mul(A.e42, B.e23)),
            fx_mul(A.e43, B.e33)), fx_mul(A.e44, B.e43)),
        e44: sat_add(sat_add(sat_add(fx_mul(A.e41, B.e14), fx_mul(A.e42, B.e24)),
            fx_mul(A.e43, B.e34)), fx_mul(A.e44, B.e44)),
    }
}


/// A scalar that is a whole number of units (an exact multiple of the
/// scale), small enough to compose twice without saturating.
pub open spec fn whole_unit(x: i64) -> bool {
    (x as int) % 65536 == 0 && -0x0400_0000 <= x <= 0x0400_0000
}

/// A matrix of whole-unit entries.
pub open spec fn whole_unit_mat4(m: Matrix4x4) -> bool {
    whole_unit(m.e11) && whole_unit(m.e12) && whole_unit(m.e13) && whole_unit(m.e14)
        && whole_unit(m.e21) && whole_unit(m.e22) && whole_unit(m.e23) && whole_unit(m.e24)
        && whole_unit(m.e31) && whole_unit(m.e32) && whole_unit(m.e33) && whole_unit(m.e34)
        && whole_unit(m.e41) && whole_unit(m.e42) && whole_unit(m.e43) && whole_unit(m.e44)
}

/// On whole-unit operands the fixed-point product is exact: no rounding, no
/// clamping, and the result is again a whole number of units.
proof fn lemma_fxm_whole(a: i64, b: i64, ba: int, bb: int)
    requires
        (a as int) % 65536 == 0,
        (b as int) % 65536 == 0,
        0 <= ba,
        0 <= bb,
        -ba <= a as int <= ba,
        -bb <= b as int <= bb,
        ba * bb <= 0x1000_0000_0000_0000 * 65536,
    ensures
        65536 * (fxm(a, b) as int) == (a as int) * (b as int),
        (fxm(a, b) as int) % 65536 == 0,
        -(ba * bb) <= 65536 * (fxm(a, b) as int) <= ba * bb,
{
    let s = 65536int;
    let a1 = a as int / s;
    lemma_fundamental_div_mod(a as int, s);
    let b1 = b as int / s;
    lemma_fundamental_div_mod(b as int, s);
    lemma_mul_bound(a as int, b as int, ba, bb);
    assert((a as int) * (b as int) == (a1 * (b as int)) * s) by (nonlinear_arith)
        requires
            a as int == s * a1,
            s == 65536,
    ;
    crate::fixed::lemma_rdiv_multiple(a1 * (b as int), s);
    assert(a1 * (b as int) == (a1 * b1) * s + 0) by (nonlinear_arith)
        requires
            b as int == s * b1,
            s == 65536,
    ;
    lemma_fundamental_div_mod_converse(a1 * (b as int), s, a1 * b1, 0);
}

/// Two whole-unit scalars sum to a whole-unit scalar.
proof fn lemma_add_whole(u: int, v: int)
    requires
        u % 65536 == 0,
        v % 65536 == 0,
    ensures
        (u + v) % 65536 == 0,
{
    let s = 65536int;
    let u1 = u / s;
    let v1 = v / s;
    lemma_fundamental_div_mod(u, s);
    lemma_fundamental_div_mod(v, s);
    assert(u + v == (u1 + v1) * s + 0) by (nonlinear_arith)
        requires
            u == s * u1,
            v == s * v1,
            s == 65536,
    ;
    lemma_fundamental_div_mod_converse(u + v, s, u1 + v1, 0);
}

/// On whole-unit operands a four-term fixed-point dot product is exact.
proof fn lemma_dot4_whole(
    p: i64, q: i64, r: i64, s: i64,
    x: i64, y: i64, z: i64, w: i64,
    bp: int, bx: int,
)
    requires
        (p as int) % 65536 == 0 && (q as int) % 65536 == 0,
        (r as int) % 65536 == 0 && (s as int) % 65536 == 0,
        (x as int) % 65536 == 0 && (y as int) % 65536 == 0,
        (z as int) % 65536 == 0 && (w as int) % 65536 == 0,
        0 <= bp,
        0 <= bx,
        -bp <= p as int <= bp && -bp <= q as int <= bp,
        -bp <= r as int <= bp && -bp <= s as int <= bp,
        -bx <= x as int <= bx && -bx <= y as int <= bx,
        -bx <= z as int <= bx && -bx <= w as int <= bx,
        4 * (bp * bx) <= 0x1000_0000_0000_0000 * 65536,
    ensures
        65536 * (dot4(p, q, r, s, x, y, z, w) as int)
            == (p as int) * (x as int) + (q as int) * (y as int)
                + (r as int) * (z as int) + (s as int) * (w as int),
        (dot4(p, q, r, s, x, y, z, w) as int) % 65536 == 0,
        -(4 * (bp * bx)) <= 65536 * (dot4(p, q, r, s, x, y, z, w) as int),
        65536 * (dot4(p, q, r, s, x, y, z, w) as int) <= 4 * (bp * bx),
{
    lemma_fxm_whole(p, x, bp, bx);
    lemma_fxm_whole(q, y, bp, bx);
    lemma_fxm_whole(r, z, bp, bx);
    lemma_fxm_whole(s, w, bp, bx);
    lemma_add_whole(fxm(p, x) as int, fxm(q, y) as int);
    lemma_add_whole(fxm(p, x) as int + fxm(q, y) as int, fxm(r, z) as int);
    lemma_add_whole(
        fxm(p, x) as int + fxm(q, y) as int + fxm(r, z) as int,
        fxm(s, w) as int,
    );
}


/// Multiplication is associative.
proof fn lemma_mul_assoc3(x: int, y: int, z: int) by (nonlinear_arith)
    ensures
        (x * y) * z == x * (y * z),
{
}

/// A constant factor moves across a product.
proof fn lemma_mul_swap_const(k: int, a: int, b: int) by (nonlinear_arith)
    ensures
        k * (a * b) == (k * a) * b,
        k * (a * b) == a * (k * b),
{
}

/// A four-term sum distributes over a right factor.
proof fn lemma_distrib4_right(p: int, q: int, r: int, s: int, c: int) by (nonlinear_arith)
    ensures
        (p + q + r + s) * c == p * c + q * c + r * c + s * c,
{
}

/// A left factor distributes over a four-term sum.
proof fn lemma_distrib4_left(a: int, p: int, q: int, r: int, s: int) by (nonlinear_arith)
    ensures
        a * (p + q + r + s) == a * p + a * q + a * r + a * s,
{
}

/// One entry of the associativity argument: if both bracketings of a
/// row-times-matrix-times-column product satisfy the exact scaled equations,
/// they agree.
#[verifier::rlimit(50)]
proof fn lemma_assoc_entry(
    a1: i64, a2: i64, a3: i64, a4: i64,
    b11: i64, b12: i64, b13: i64, b14: i64,
    b21: i64, b22: i64, b23: i64, b24: i64,
    b31: i64, b32: i64, b33: i64, b34: i64,
    b41: i64, b42: i64, b43: i64, b44: i64,
    c1: i64, c2: i64, c3: i64, c4: i64,
    ab1: i64, ab2: i64, ab3: i64, ab4: i64,
    bc1: i64, bc2: i64, bc3: i64, bc4: i64,
    l: i64, r: i64,
)
    requires
        65536 * (ab1 as int) == (a1 as int) * (b11 as int) + (a2 as int) * (b21 as int)
            + (a3 as int) * (b31 as int) + (a4 as int) * (b41 as int),
        65536 * (ab2 as int) == (a1 as int) * (b12 as int) + (a2 as int) * (b22 as int)
            + (a3 as int) * (b32 as int) + (a4 as int) * (b42 as int),
        65536 * (ab3 as int) == (a1 as int) * (b13 as int) + (a2 as int) * (b23 as int)
            + (a3 as int) * (b33 as int) + (a4 as int) * (b43 as int),
        65536 * (ab4 as int) == (a1 as int) * (b14 as int) + (a2 as int) * (b24 as int)
            + (a3 as int) * (b34 as int) + (a4 as int) * (b44 as int),
        65536 * (bc1 as int) == (b11 as int) * (c1 as int) + (b12 as int) * (c2 as int)
            + (b13 as int) * (c3 as int) + (b14 as int) * (c4 as int),
        65536 * (bc2 as int) == (b21 as int) * (c1 as int) + (b22 as int) * (c2 as int)
            + (b23 as int) * (c3 as int) + (b24 as int) * (c4 as int),
        65536 * (bc3 as int) == (b31 as int) * (c1 as int) + (b32 as int) * (c2 as int)
            + (b33 as int) * (c3 as int) + (b34 as int) * (c4 as int),
        65536 * (bc4 as int) == (b41 as int) * (c1 as int) + (b42 as int) * (c2 as int)
            + (b43 as int) * (c3 as int) + (b44 as int) * (c4 as int),
        65536 * (l as int) == (ab1 as int) * (c1 as int) + (ab2 as int) * (c2 as int)
            + (ab3 as int) * (c3 as int) + (ab4 as int) * (c4 as int),
        65536 * (r as int) == (a1 as int) * (bc1 as int) + (a2 as int) * (bc2 as int)
            + (a3 as int) * (bc3 as int) + (a4 as int) * (bc4 as int),
    ensures
        l == r,
{
    let sc = 65536int;
    lemma_mul_swap_const(sc, ab1 as int, c1 as int);
    lemma_mul_swap_const(sc, ab2 as int, c2 as int);
    lemma_mul_swap_const(sc, ab3 as int, c3 as int);
    lemma_mul_swap_const(sc, ab4 as int, c4 as int);
    lemma_distrib4_right((a1 as int) * (b11 as int), (a2 as int) * (b21 as int), (a3 as int) * (b31 as int), (a4 as int) * (b41 as int), c1 as int);
    lemma_distrib4_right((a1 as int) * (b12 as int), (a2 as int) * (b22 as int), (a3 as int) * (b32 as int), (a4 as int) * (b42 as int), c2 as int);
    lemma_distrib4_right((a1 as int) * (b13 as int), (a2 as int) * (b23 as int), (a3 as int) * (b33 as int), (a4 as int) * (b43 as int), c3 as int);
    lemma_distrib4_right((a1 as int) * (b14 as int), (a2 as int) * (b24 as int), (a3 as int) * (b34 as int), (a4 as int) * (b44 as int), c4 as int);
    lemma_mul_swap_const(sc, a1 as int, bc1 as int);
    lemma_mul_swap_const(sc, a2 as int, bc2 as int);
    lemma_mul_swap_const(sc, a3 as int, bc3 as int);
    lemma_mul_swap_const(sc, a4 as int, bc4 as int);
    lemma_distrib4_left(a1 as int, (b11 as int) * (c1 as int), (b12 as int) * (c2 as int), (b13 as int) * (c3 as int), (b14 as int) * (c4 as int));
    lemma_distrib4_left(a2 as int, (b21 as int) * (c1 as int), (b22 as int) * (c2 as int), (b23 as int) * (c3 as int), (b24 as int) * (c4 as int));
    lemma_distrib4_left(a3 as int, (b31 as int) * (c1 as int), (b32 as int) * (c2 as int), (b33 as int) * (c3 as int), (b34 as int) * (c4 as int));
    lemma_distrib4_left(a4 as int, (b41 as int) * (c1 as int), (b42 as int) * (c2 as int), (b43 as int) * (c3 as int), (b44 as int) * (c4 as int));
    lemma_mul_assoc3(a1 as int, b11 as int, c1 as int);
    lemma_mul_assoc3(a1 as int, b12 as int, c2 as int);
    lemma_mul_assoc3(a1 as int, b13 as int, c3 as int);
    lemma_mul_assoc3(a1 as int, b14 as int, c4 as int);
    lemma_mul_assoc3(a2 as int, b21 as int, c1 as int);
    lemma_mul_assoc3(a2 as int, b22 as int, c2 as int);
    lemma_mul_assoc3(a2 as int, b23 as int, c3 as int);
    lemma_mul_assoc3(a2 as int, b24 as int, c4 as int);
    lemma_mul_assoc3(a3 as int, b31 as int, c1 as int);
    lemma_mul_assoc3(a3 as int, b32 as int, c2 as int);
    lemma_mul_assoc3(a3 as int, b33 as int, c3 as int);
    lemma_mul_assoc3(a3 as int, b34 as int, c4 as int);
    lemma_mul_assoc3(a4 as int, b41 as int, c1 as int);
    lemma_mul_assoc3(a4 as int, b42 as int, c2 as int);
    lemma_mul_assoc3(a4 as int, b43 as int, c3 as int);
    lemma_mul_assoc3(a4 as int, b44 as int, c4 as int);
    assert(sc * (sc * (l as int)) == ((a1 as int) * (b11 as int)) * (c1 as int)
        + ((a2 as int) * (b21 as int)) * (c1 as int)
        + ((a3 as int) * (b31 as int)) * (c1 as int)
        + ((a4 as int) * (b41 as int)) * (c1 as int)
        + ((a1 as int) * (b12 as int)) * (c2 as int)
        + ((a2 as int) * (b22 as int)) * (c2 as int)
        + ((a3 as int) * (b32 as int)) * (c2 as int)
        + ((a4 as int) * (b42 as int)) * (c2 as int)
        + ((a1 as int) * (b13 as int)) * (c3 as int)
        + ((a2 as int) * (b23 as int)) * (c3 as int)
        + ((a3 as int) * (b33 as int)) * (c3 as int)
        + ((a4 as int) * (b43 as int)) * (c3 as int)
        + ((a1 as int) * (b14 as int)) * (c4 as int)
        + ((a2 as int) * (b24 as int)) * (c4 as int)
        + ((a3 as int) * (b34 as int)) * (c4 as int)
        + ((a4 as int) * (b44 as int)) * (c4 as int));
    assert(sc * (sc * (r as int)) == (a1 as int) * ((b11 as int) * (c1 as int))
        + (a1 as int) * ((b12 as int) * (c2 as int))
        + (a1 as int) * ((b13 as int) * (c3 as int))
        + (a1 as int) * ((b14 as int) * (c4 as int))
        + (a2 as int) * ((b21 as int) * (c1 as int))
        + (a2 as int) * ((b22 as int) * (c2 as int))
        + (a2 as int) * ((b23 as int) * (c3 as int))
        + (a2 as int) * ((b24 as int) * (c4 as int))
        + (a3 as int) * ((b31 as int) * (c1 as int))
        + (a3 as int) * ((b32 as int) * (c2 as int))
        + (a3 as int) * ((b33 as int) * (c3 as int))
        + (a3 as int) * ((b34 as int) * (c4 as int))
        + (a4 as int) * ((b41 as int) * (c1 as int))
        + (a4 as int) * ((b42 as int) * (c2 as int))
        + (a4 as int) * ((b43 as int) * (c3 as int))
        + (a4 as int) * ((b44 as int) * (c4 as int)));
    assert(sc * (sc * (l as int)) == sc * (sc * (r as int)));
}



/// Composition of whole-unit matrices is exactly associative: on entries
/// that are whole numbers of units (within range), every fixed-point product
/// is exact, and `(A · B) · C == A · (B · C)` holds with no tolerance. On
/// general entries the per-operation rounding makes the equality only
/// approximate, as it is in any finite arithmetic.
pub proof fn lemma_mul4_assoc_whole_unit(a: Matrix4x4, b: Matrix4x4, c: Matrix4x4)
    requires
        whole_unit_mat4(a),
        whole_unit_mat4(b),
        whole_unit_mat4(c),
    ensures
        mul4_spec(mul4_spec(a, b), c) == mul4_spec(a, mul4_spec(b, c)),
{
    let ab = mul4_spec(a, b);
    let bc = mul4_spec(b, c);
    lemma_dot4_whole(a.e11, a.e12, a.e13, a.e14, b.e11, b.e21, b.e31, b.e41, 0x0400_0000, 0x0400_0000);
    lemma_dot4_whole(a.e11, a.e12, a.e13, a.e14, b.e12, b.e22, b.e32, b.e42, 0x0400_0000, 0x0400_0000);
    lemma_dot4_whole(a.e11, a.e12, a.e13, a.e14, b.e13, b.e23, b.e33, b.e43, 0x0400_0000, 0x0400_0000);
    lemma_dot4_whole(a.e11, a.e12, a.e13, a.e14, b.e14, b.e24, b.e34, b.e44, 0x0400_0000, 0x0400_0000);
    lemma_dot4_whole(a.e21, a.e22, a.e23, a.e24, b.e11, b.e21, b.e31, b.e41, 0x0400_0000, 0x0400_0000);
    lemma_dot4_whole(a.e21, a.e22, a.e23, a.e24, b.e12, b.e22, b.e32, b.e42, 0x0400_0000, 0x0400_0000);
    lemma_dot4_whole(a.e21, a.e22, a.e23, a.e24, b.e13, b.e23, b.e33, b.e43, 0x0400_0000, 0x0400_0000);
    lemma_dot4_whole(a.e21, a.e22, a.e23, a.e24, b.e14, b.e24, b.e34, b.e44, 0x0400_0000, 0x0400_0000);
    lemma_dot4_whole(a.e31, a.e32, a.e33, a.e34, b.e11, b.e21, b.e31, b.e41, 0x0400_0000, 0x0400_0000);
    lemma_dot4_whole(a.e31, a.e32, a.e33, a.e34, b.e12, b.e22, b.e32, b.e42, 0x0400_0000, 0x0400_0000);
    lemma_dot4_whole(a.e31, a.e32, a.e33, a.e34, b.e13, b.e23, b.e33, b.e43, 0x0400_0000, 0x0400_0000);
    lemma_dot4_whole(a.e31, a.e32, a.e33, a.e34, b.e14, b.e24, b.e34, b.e44, 0x0400_0000, 0x0400_0000);
    lemma_dot4_whole(a.e41, a.e42, a.e43, a.e44, b.e11, b.e21, b.e31, b.e41, 0x0400_0000, 0x0400_0000);
    lemma_dot4_whole(a.e41, a.e42, a.e43, a.e44, b.e12, b.e22, b.e32, b.e42, 0x0400_0000, 0x0400_0000);
    lemma_dot4_whole(a.e41, a.e42, a.e43, a.e44, b.e13, b.e23, b.e33, b.e43, 0x0400_0000, 0x0400_0000);
    lemma_dot4_whole(a.e41, a.e42, a.e43, a.e44, b.e14, b.e24, b.e34, b.e44, 0x0400_0000, 0x0400_0000);
    lemma_dot4_whole(b.e11, b.e12, b.e13, b.e14, c.e11, c.e21, c.e31, c.e41, 0x0400_0000, 0x0400_0000);
    lemma_dot4_whole(b.e11, b.e12, b.e13, b.e14, c.e12, c.e22, c.e32, c.e42, 0x0400_0000, 0x0400_0000);
    lemma_dot4_whole(b.e11, b.e12, b.e13, b.e14, c.e13, c.e23, c.e33, c.e43, 0x0400_0000, 0x0400_0000);
    lemma_dot4_whole(b.e11, b.e12, b.e13, b.e14, c.e14, c.e24, c.e34, c.e44, 0x0400_0000, 0x0400_0000);
    lemma_dot4_whole(b.e21, b.e22, b.e23, b.e24, c.e11, c.e21, c.e31, c.e41, 0x0400_0000, 0x0400_0000);
    lemma_dot4_whole(b.e21, b.e22, b.e23, b.e24, c.e12, c.e22, c.e32, c.e42, 0x0400_0000, 0x0400_0000);
    lemma_dot4_whole(b.e21, b.e22, b.e23, b.e24, c.e13, c.e23, c.e33, c.e43, 0x0400_0000, 0x0400_0000);
    lemma_dot4_whole(b.e21, b.e22, b.e23, b.e24, c.e14, c.e24, c.e34, c.e44, 0x0400_0000, 0x0400_0000);
    lemma_dot4_whole(b.e31, b.e32, b.e33, b.e34, c.e11, c.e21, c.e31, c.e41, 0x0400_0000, 0x0400_0000);
    lemma_dot4_whole(b.e31, b.e32, b.e33, b.e34, c.e12, c.e22, c.e32, c.e42, 0x0400_0000, 0x0400_0000);
    lemma_dot4_whole(b.e31, b.e32, b.e33, b.e34, c.e13, c.e23, c.e33, c.e43, 0x0400_0000, 0x0400_0000);
    lemma_dot4_whole(b.e31, b.e32, b.e33, b.e34, c.e14, c.e24, c.e34, c.e44, 0x0400_0000, 0x0400_0000);
    lemma_dot4_whole(b.e41, b.e42, b.e43, b.e44, c.e11, c.e21, c.e31, c.e41, 0x0400_0000, 0x0400_0000);
    lemma_dot4_whole(b.e41, b.e42, b.e43, b.e44, c.e12, c.e22, c.e32, c.e42, 0x0400_0000, 0x0400_0000);
    lemma_dot4_whole(b.e41, b.e42, b.e43, b.e44, c.e13, c.e23, c.e33, c.e43, 0x0400_0000, 0x0400_0000);
    lemma_dot4_whole(b.e41, b.e42, b.e43, b.e44, c.e14, c.e24, c.e34, c.e44, 0x0400_0000, 0x0400_0000);
    lemma_dot4_whole(ab.e11, ab.e12, ab.e13, ab.e14, c.e11, c.e21, c.e31, c.e41, 0x40_0000_0000, 0x0400_0000);
    lemma_dot4_whole(ab.e11, ab.e12, ab.e13, ab.e14, c.e12, c.e22, c.e32, c.e42, 0x40_0000_0000, 0x0400_0000);
    lemma_dot4_whole(ab.e11, ab.e12, ab.e13, ab.e14, c.e13, c.e23, c.e33, c.e43, 0x40_0000_0000, 0x0400_0000);
    lemma_dot4_whole(ab.e11, ab.e12, ab.e13, ab.e14, c.e14, c.e24, c.e34, c.e44, 0x40_0000_0000, 0x0400_0000);
    lemma_dot4_whole(ab.e21, ab.e22, ab.e23, ab.e24, c.e11, c.e21, c.e31, c.e41, 0x40_0000_0000, 0x0400_0000);
    lemma_dot4_whole(ab.e21, ab.e22, ab.e23, ab.e24, c.e12, c.e22, c.e32, c.e42, 0x40_0000_0000, 0x0400_0000);
    lemma_dot4_whole(ab.e21, ab.e22, ab.e23, ab.e24, c.e13, c.e23, c.e33, c.e43, 0x40_0000_0000, 0x0400_0000);
    lemma_dot4_whole(ab.e21, ab.e22, ab.e23, ab.e24, c.e14, c.e24, c.e34, c.e44, 0x40_0000_0000, 0x0400_0000);
    lemma_dot4_whole(ab.e31, ab.e32, ab.e33, ab.e34, c.e11, c.e21, c.e31, c.e41, 0x40_0000_0000, 0x0400_0000);
    lemma_dot4_whole(ab.e31, ab.e32, ab.e33, ab.e34, c.e12, c.e22, c.e32, c.e42, 0x40_0000_0000, 0x0400_0000);
    lemma_dot4_whole(ab.e31, ab.e32, ab.e33, ab.e34, c.e13, c.e23, c.e33, c.e43, 0x40_0000_0000, 0x0400_0000);
    lemma_dot4_whole(ab.e31, ab.e32, ab.e33, ab.e34, c.e14, c.e24, c.e34, c.e44, 0x40_0000_0000, 0x0400_0000);
    lemma_dot4_whole(ab.e41, ab.e42, ab.e43, ab.e44, c.e11, c.e21, c.e31, c.e41, 0x40_0000_0000, 0x0400_0000);
    lemma_dot4_whole(ab.e41, ab.e42, ab.e43, ab.e44, c.e12, c.e22, c.e32, c.e42, 0x40_0000_0000, 0x0400_0000);
    lemma_dot4_whole(ab.e41, ab.e42, ab.e43, ab.e44, c.e13, c.e23, c.e33, c.e43, 0x40_0000_0000, 0x0400_0000);
    lemma_dot4_whole(ab.e41, ab.e42, ab.e43, ab.e44, c.e14, c.e24, c.e34, c.e44, 0x40_0000_0000, 0x0400_0000);
    lemma_dot4_whole(a.e11, a.e12, a.e13, a.e14, bc.e11, bc.e21, bc.e31, bc.e41, 0x0400_0000, 0x40_0000_0000);
    lemma_dot4_whole(a.e11, a.e12, a.e13, a.e14, bc.e12, bc.e22, bc.e32, bc.e42, 0x0400_0000, 0x40_0000_0000);
    lemma_dot4_whole(a.e11, a.e12, a.e13, a.e14, bc.e13, bc.e23, bc.e33, bc.e43, 0x0400_0000, 0x40_0000_0000);
    lemma_dot4_whole(a.e11, a.e12, a.e13, a.e14, bc.e14, bc.e24, bc.e34, bc.e44, 0x0400_0000, 0x40_0000_0000);
    lemma_dot4_whole(a.e21, a.e22, a.e23, a.e24, bc.e11, bc.e21, bc.e31, bc.e41, 0x0400_0000, 0x40_0000_0000);
    lemma_dot4_whole(a.e21, a.e22, a.e23, a.e24, bc.e12, bc.e22, bc.e32, bc.e42, 0x0400_0000, 0x40_0000_0000);
    lemma_dot4_whole(a.e21, a.e22, a.e23, a.e24, bc.e13, bc.e23, bc.e33, bc.e43, 0x0400_0000, 0x40_0000_0000);
    lemma_dot4_whole(a.e21, a.e22, a.e23, a.e24, bc.e14, bc.e24, bc.e34, bc.e44, 0x0400_0000, 0x40_0000_0000);
    lemma_dot4_whole(a.e31, a.e32, a.e33, a.e34, bc.e11, bc.e21, bc.e31, bc.e41, 0x0400_0000, 0x40_0000_0000);
    lemma_dot4_whole(a.e31, a.e32, a.e33, a.e34, bc.e12, bc.e22, bc.e32, bc.e42, 0x0400_0000, 0x40_0000_0000);
    lemma_dot4_whole(a.e31, a.e32, a.e33, a.e34, bc.e13, bc.e23, bc.e33, bc.e43, 0x0400_0000, 0x40_0000_0000);
    lemma_dot4_whole(a.e31, a.e32, a.e33, a.e34, bc.e14, bc.e24, bc.e34, bc.e44, 0x0400_0000, 0x40_0000_0000);
    lemma_dot4_whole(a.e41, a.e42, a.e43, a.e44, bc.e11, bc.e21, bc.e31, bc.e41, 0x0400_0000, 0x40_0000_0000);
    lemma_dot4_whole(a.e41, a.e42, a.e43, a.e44, bc.e12, bc.e22, bc.e32, bc.e42, 0x0400_0000, 0x40_0000_0000);
    lemma_dot4_whole(a.e41, a.e42, a.e43, a.e44, bc.e13, bc.e23, bc.e33, bc.e43, 0x0400_0000, 0x40_0000_0000);
    lemma_dot4_whole(a.e41, a.e42, a.e43, a.e44, bc.e14, bc.e24, bc.e34, bc.e44, 0x0400_0000, 0x40_0000_0000);
    lemma_assoc_entry(a.e11, a.e12, a.e13, a.e14,
        b.e11, b.e12, b.e13, b.e14, b.e21, b.e22, b.e23, b.e24, b.e31, b.e32, b.e33, b.e34, b.e41, b.e42, b.e43, b.e44,
        c.e11, c.e21, c.e31, c.e41,
        ab.e11, ab.e12, ab.e13, ab.e14,
        bc.e11, bc.e21, bc.e31, bc.e41,
        mul4_spec(ab, c).e11, mul4_spec(a, bc).e11);
    lemma_assoc_entry(a.e11, a.e12, a.e13, a.e14,
        b.e11, b.e12, b.e13, b.e14, b.e21, b.e22, b.e23, b.e24, b.e31, b.e32, b.e33, b.e34, b.e41, b.e42, b.e43, b.e44,
        c.e12, c.e22, c.e32, c.e42,
        ab.e11, ab.e12, ab.e13, ab.e14,
        bc.e12, bc.e22, bc.e32, bc.e42,
        mul4_spec(ab, c).e12, mul4_spec(a, bc).e12);
    lemma_assoc_entry(a.e11, a.e12, a.e13, a.e14,
        b.e11, b.e12, b.e13, b.e14, b.e21, b.e22, b.e23, b.e24, b.e31, b.e32, b.e33, b.e34, b.e41, b.e42, b.e43, b.e44,
        c.e13, c.e23, c.e33, c.e43,
        ab.e11, ab.e12, ab.e13, ab.e14,
        bc.e13, bc.e23, bc.e33, bc.e43,
        mul4_spec(ab, c).e13, mul4_spec(a, bc).e13);
    lemma_assoc_entry(a.e11, a.e12, a.e13, a.e14,
        b.e11, b.e12, b.e13, b.e14, b.e21, b.e22, b.e23, b.e24, b.e31, b.e32, b.e33, b.e34, b.e41, b.e42, b.e43, b.e44,
        c.e14, c.e24, c.e34, c.e44,
        ab.e11, ab.e12, ab.e13, ab.e14,
        bc.e14, bc.e24, bc.e34, bc.e44,
        mul4_spec(ab, c).e14, mul4_spec(a, bc).e14);
    lemma_assoc_entry(a.e21, a.e22, a.e23, a.e24,
        b.e11, b.e12, b.e13, b.e14, b.e21, b.e22, b.e23, b.e24, b.e31, b.e32, b.e33, b.e34, b.e41, b.e42, b.e43, b.e44,
        c.e11, c.e21, c.e31, c.e41,
        ab.e21, ab.e22, ab.e23, ab.e24,
        bc.e11, bc.e21, bc.e31, bc.e41,
        mul4_spec(ab, c).e21, mul4_spec(a, bc).e21);
    lemma_assoc_entry(a.e21, a.e22, a.e23, a.e24,
        b.e11, b.e12, b.e13, b.e14, b.e21, b.e22, b.e23, b.e24, b.e31, b.e32, b.e33, b.e34, b.e41, b.e42, b.e43, b.e44,
        c.e12, c.e22, c.e32, c.e42,
        ab.e21, ab.e22, ab.e23, ab.e24,
        bc.e12, bc.e22, bc.e32, bc.e42,
        mul4_spec(ab, c).e22, mul4_spec(a, bc).e22);
    lemma_assoc_entry(a.e21, a.e22, a.e23, a.e24,
        b.e11, b.e12, b.e13, b.e14, b.e21, b.e22, b.e23, b.e24, b.e31, b.e32, b.e33, b.e34, b.e41, b.e42, b.e43, b.e44,
        c.e13, c.e23, c.e33, c.e43,
        ab.e21, ab.e22, ab.e23, ab.e24,
        bc.e13, bc.e23, bc.e33, bc.e43,
        mul4_spec(ab, c).e23, mul4_spec(a, bc).e23);
    lemma_assoc_entry(a.e21, a.e22, a.e23, a.e24,
        b.e11, b.e12, b.e13, b.e14, b.e21, b.e22, b.e23, b.e24, b.e31, b.e32, b.e33, b.e34, b.e41, b.e42, b.e43, b.e44,
        c.e14, c.e24, c.e34, c.e44,
        ab.e21, ab.e22, ab.e23, ab.e24,
        bc.e14, bc.e24, bc.e34, bc.e44,
        mul4_spec(ab, c).e24, mul4_spec(a, bc).e24);
    lemma_assoc_entry(a.e31, a.e32, a.e33, a.e34,
        b.e11, b.e12, b.e13, b.e14, b.e21, b.e22, b.e23, b.e24, b.e31, b.e32, b.e33, b.e34, b.e41, b.e42, b.e43, b.e44,
        c.e11, c.e21, c.e31, c.e41,
        ab.e31, ab.e32, ab.e33, ab.e34,
        bc.e11, bc.e21, bc.e31, bc.e41,
        mul4_spec(ab, c).e31, mul4_spec(a, bc).e31);
    lemma_assoc_entry(a.e31, a.e32, a.e33, a.e34,
        b.e11, b.e12, b.e13, b.e14, b.e21, b.e22, b.e23, b.e24, b.e31, b.e32, b.e33, b.e34, b.e41, b.e42, b.e43, b.e44,
        c.e12, c.e22, c.e32, c.e42,
        ab.e31, ab.e32, ab.e33, ab.e34,
        bc.e12, bc.e22, bc.e32, bc.e42,
        mul4_spec(ab, c).e32, mul4_spec(a, bc).e32);
    lemma_assoc_entry(a.e31, a.e32, a.e33, a.e34,
        b.e11, b.e12, b.e13, b.e14, b.e21, b.e22, b.e23, b.e24, b.e31, b.e32, b.e33, b.e34, b.e41, b.e42, b.e43, b.e44,
        c.e13, c.e23, c.e33, c.e43,
        ab.e31, ab.e32, ab.e33, ab.e34,
        bc.e13, bc.e23, bc.e33, bc.e43,
        mul4_spec(ab, c).e33, mul4_spec(a, bc).e33);
    lemma_assoc_entry(a.e31, a.e32, a.e33, a.e34,
        b.e11, b.e12, b.e13, b.e14, b.e21, b.e22, b.e23, b.e24, b.e31, b.e32, b.e33, b.e34, b.e41, b.e42, b.e43, b.e44,
        c.e14, c.e24, c.e34, c.e44,
        ab.e31, ab.e32, ab.e33, ab.e34,
        bc.e14, bc.e24, bc.e34, bc.e44,
        mul4_spec(ab, c).e34, mul4_spec(a, bc).e34);
    lemma_assoc_entry(a.e41, a.e42, a.e43, a.e44,
        b.e11, b.e12, b.e13, b.e14, b.e21, b.e22, b.e23, b.e24, b.e31, b.e32, b.e33, b.e34, b.e41, b.e42, b.e43, b.e44,
        c.e11, c.e21, c.e31, c.e41,
        ab.e41, ab.e42, ab.e43, ab.e44,
        bc.e11, bc.e21, bc.e31, bc.e41,
        mul4_spec(ab, c).e41, mul4_spec(a, bc).e41);
    lemma_assoc_entry(a.e41, a.e42, a.e43, a.e44,
        b.e11, b.e12, b.e13, b.e14, b.e21, b.e22, b.e23, b.e24, b.e31, b.e32, b.e33, b.e34, b.e41, b.e42, b.e43, b.e44,
        c.e12, c.e22, c.e32, c.e42,
        ab.e41, ab.e42, ab.e43, ab.e44,
        bc.e12, bc.e22, bc.e32, bc.e42,
        mul4_spec(ab, c).e42, mul4_spec(a, bc).e42);
    lemma_assoc_entry(a.e41, a.e42, a.e43, a.e44,
        b.e11, b.e12, b.e13, b.e14, b.e21, b.e22, b.e23, b.e24, b.e31, b.e32, b.e33, b.e34, b.e41, b.e42, b.e43, b.e44,
        c.e13, c.e23, c.e33, c.e43,
        ab.e41, ab.e42, ab.e43, ab.e44,
        bc.e13, bc.e23, bc.e33, bc.e43,
        mul4_spec(ab, c).e43, mul4_spec(a, bc).e43);
    lemma_assoc_entry(a.e41, a.e42, a.e43, a.e44,
        b.e11, b.e12, b.e13, b.e14, b.e21, b.e22, b.e23, b.e24, b.e31, b.e32, b.e33, b.e34, b.e41, b.e42, b.e43, b.e44,
        c.e14, c.e24, c.e34, c.e44,
        ab.e41, ab.e42, ab.e43, ab.e44,
        bc.e14, bc.e24, bc.e34, bc.e44,
        mul4_spec(ab, c).e44, mul4_spec(a, bc).e44);
}

/// Applying the identity matrix returns any homogeneous vector unchanged.
pub proof fn lemma_apply4_identity(v: (i64, i64, i64, i64))
    ensures
        apply4_spec(identity4_spec(), v) == v,
{
    lemma_fx_mul_one_zero(v.0);
    lemma_fx_mul_one_zero(v.1);
    lemma_fx_mul_one_zero(v.2);
    lemma_fx_mul_one_zero(v.3);
}

/// Applying the identity matrix returns any 3-vector unchanged.
pub proof fn lemma_apply3_identity(v: (i64, i64, i64))
    ensures
        apply3_spec(identity3_spec(), v) == v,
{
    lemma_fx_mul_one_zero(v.0);
    lemma_fx_mul_one_zero(v.1);
    lemma_fx_mul_one_zero(v.2);
}

/// Transposing twice gives the original matrix back.
pub proof fn lemma_transpose_involution(m: Matrix3x3)
    ensures
        transpose3_spec(transpose3_spec(m)) == m,
{
}

} // verus!
