use cerulean::cmatrix::{Matrix3x3, Matrix4x4, Vec3, SinCos, matrix_3x3_mult, matrix_4x4_mult};

const ONE: i64 = 65536;

fn close(a: i64, b: i64, tol: i64) -> bool {
    let d = a - b;
    -tol <= d && d <= tol
}

#[test]
fn identity_application_returns_vector_unchanged() {
    let m = Matrix4x4::new();
    let mut v = (123i64, -456i64, 789000i64, 1i64);
    m.applyTo(&mut v);
    assert_eq!(v, (123, -456, 789000, 1));

    let m3 = Matrix3x3::new();
    let mut u = (-70000i64, 3i64, 65536i64);
    m3.applyTo(&mut u);
    assert_eq!(u, (-70000, 3, 65536));
}

#[test]
fn identity_is_multiplicative_unit() {
    let i3 = Matrix3x3::new();
    let a = Matrix3x3 {
        e11: ONE, e12: 2 * ONE, e13: -ONE,
        e21: 0, e22: ONE / 2, e23: 3 * ONE,
        e31: -2 * ONE, e32: ONE, e33: ONE,
    };
    assert_eq!(matrix_3x3_mult(&i3, &a), a);
    assert_eq!(matrix_3x3_mult(&a, &i3), a);

    let i4 = Matrix4x4::new();
    let b = Matrix4x4 {
        e11: ONE, e12: 0, e13: -ONE, e14: 7 * ONE,
        e21: 2 * ONE, e22: ONE, e23: 0, e24: -3 * ONE,
        e31: 0, e32: ONE / 4, e33: ONE, e34: 0,
        e41: 0, e42: 0, e43: 0, e44: ONE,
    };
    assert_eq!(matrix_4x4_mult(&i4, &b), b);
    assert_eq!(matrix_4x4_mult(&b, &i4), b);
}

#[test]
fn transpose_twice_is_identity() {
    let a = Matrix3x3 {
        e11: 1, e12: 2, e13: 3,
        e21: 4, e22: 5, e23: 6,
        e31: 7, e32: 8, e33: 9,
    };
    assert_eq!(a.tranpose_copy().tranpose_copy(), a);
    let mut b = a;
    b.transpose();
    b.transpose();
    assert_eq!(b, a);
}

#[test]
fn zero_rotation_is_identity() {
    let sc = SinCos { s: 0, c: ONE };
    let m = Matrix3x3::new_rot(sc, sc, sc);
    assert_eq!(m, Matrix3x3::new());
}

#[test]
fn quarter_turn_about_z_swaps_axes() {
    let zero = SinCos { s: 0, c: ONE };
    let quarter = SinCos { s: ONE, c: 0 };
    let m = Matrix3x3::new_rot(zero, zero, quarter);
    let mut v = (ONE, 0i64, 0i64);
    m.applyTo(&mut v);
    assert_eq!(v, (0, ONE, 0));
}

#[test]
fn composition_is_associative_within_tolerance() {
    let a = Matrix4x4 {
        e11: ONE, e12: ONE / 2, e13: -ONE / 4, e14: 3 * ONE,
        e21: 0, e22: 2 * ONE, e23: ONE / 8, e24: -ONE,
        e31: ONE / 3, e32: 0, e33: ONE, e34: ONE / 2,
        e41: 0, e42: 0, e43: ONE, e44: 0,
    };
    let b = Matrix4x4 {
        e11: -ONE / 2, e12: ONE, e13: 0, e14: ONE / 5,
        e21: ONE, e22: ONE / 7, e23: 2 * ONE, e24: 0,
        e31: 0, e32: -ONE, e33: ONE / 2, e34: ONE,
        e41: 0, e42: 0, e43: 0, e44: ONE,
    };
    let c = Matrix4x4 {
        e11: ONE / 9, e12: 0, e13: ONE, e14: -2 * ONE,
        e21: ONE / 2, e22: ONE, e23: 0, e24: ONE / 2,
        e31: ONE, e32: ONE / 4, e33: -ONE / 2, e34: 0,
        e41: 0, e42: 0, e43: ONE, e44: 0,
    };
    let lhs = matrix_4x4_mult(&matrix_4x4_mult(&a, &b), &c);
    let rhs = matrix_4x4_mult(&a, &matrix_4x4_mult(&b, &c));
    let tol = 64i64; // about 0.001 of a unit
    assert!(close(lhs.e11, rhs.e11, tol) && close(lhs.e12, rhs.e12, tol));
    assert!(close(lhs.e13, rhs.e13, tol) && close(lhs.e14, rhs.e14, tol));
    assert!(close(lhs.e21, rhs.e21, tol) && close(lhs.e22, rhs.e22, tol));
    assert!(close(lhs.e23, rhs.e23, tol) && close(lhs.e24, rhs.e24, tol));
    assert!(close(lhs.e31, rhs.e31, tol) && close(lhs.e32, rhs.e32, tol));
    assert!(close(lhs.e33, rhs.e33, tol) && close(lhs.e34, rhs.e34, tol));
    assert!(close(lhs.e41, rhs.e41, tol) && close(lhs.e42, rhs.e42, tol));
    assert!(close(lhs.e43, rhs.e43, tol) && close(lhs.e44, rhs.e44, tol));
}

#[test]
fn embedding_a_rotation_keeps_its_entries() {
    let a = Matrix3x3 {
        e11: 1, e12: 2, e13: 3,
        e21: 4, e22: 5, e23: 6,
        e31: 7, e32: 8, e33: 9,
    };
    let m = a.as4x4();
    assert_eq!(m.e11, 1);
    assert_eq!(m.e23, 6);
    assert_eq!(m.e33, 9);
    assert_eq!(m.e44, ONE);
    assert_eq!(m.e14, 0);
    assert_eq!(m.e41, 0);
}

#[test]
fn vec3_new_is_zero() {
    let v = Vec3::new();
    assert_eq!((v.e1, v.e2, v.e3), (0, 0, 0));
}

#[test]
fn composition_on_whole_unit_matrices_is_exactly_associative() {
    let a = Matrix4x4 {
        e11: 2 * ONE, e12: -3 * ONE, e13: 0, e14: 7 * ONE,
        e21: ONE, e22: 5 * ONE, e23: -2 * ONE, e24: 0,
        e31: 0, e32: 4 * ONE, e33: ONE, e34: -6 * ONE,
        e41: 0, e42: 0, e43: ONE, e44: 0,
    };
    let b = Matrix4x4 {
        e11: -ONE, e12: 2 * ONE, e13: 9 * ONE, e14: 0,
        e21: 3 * ONE, e22: 0, e23: -5 * ONE, e24: ONE,
        e31: 0, e32: 8 * ONE, e33: ONE, e34: -2 * ONE,
        e41: ONE, e42: 0, e43: 0, e44: 4 * ONE,
    };
    let c = Matrix4x4 {
        e11: 6 * ONE, e12: 0, e13: -7 * ONE, e14: ONE,
        e21: 0, e22: -ONE, e23: 2 * ONE, e24: 3 * ONE,
        e31: ONE, e32: 5 * ONE, e33: 0, e34: -4 * ONE,
        e41: 2 * ONE, e42: 0, e43: ONE, e44: 0,
    };
    let lhs = matrix_4x4_mult(&matrix_4x4_mult(&a, &b), &c);
    let rhs = matrix_4x4_mult(&a, &matrix_4x4_mult(&b, &c));
    assert_eq!(lhs, rhs);
}
