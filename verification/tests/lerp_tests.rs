use cerulean::cmath::{i32_lerp_vec, fx_lerp_vec, usize_lerp, usize_lerp_vec, u32_lerp};

#[test]
fn i32_lerp_even_span() {
    assert_eq!(i32_lerp_vec(0, 0, 4, 8), vec![0, 2, 4, 6, 8]);
}

#[test]
fn i32_lerp_endpoint_exact() {
    let v = i32_lerp_vec(0, 0, 3, 10);
    assert_eq!(v.len(), 4);
    assert_eq!(*v.last().unwrap(), 10);
    let w = i32_lerp_vec(-7, 13, 900, -4242);
    assert_eq!(w.len(), 908);
    assert_eq!(*w.last().unwrap(), -4242);
}

#[test]
fn i32_lerp_degenerate_midpoint() {
    assert_eq!(i32_lerp_vec(5, 2, 5, 8), vec![5]);
    assert_eq!(i32_lerp_vec(9, 3, 2, 4), vec![3]);
}

#[test]
fn i32_lerp_rounds_half_toward_positive_before_truncation() {
    // A constant span at -1 rounds each interior sample to 0, the endpoint
    // staying exact.
    assert_eq!(i32_lerp_vec(0, -1, 2, -1), vec![0, 0, -1]);
}

#[test]
fn fx_lerp_endpoint_exact_and_even() {
    let one = 65536i64;
    assert_eq!(fx_lerp_vec(0, 0, 4, one), vec![0, 16384, 32768, 49152, 65536]);
    let v = fx_lerp_vec(3, 7 * one + 5, 10, -3 * one + 1);
    assert_eq!(*v.last().unwrap(), -3 * one + 1);
}

#[test]
fn fx_lerp_degenerate_midpoint() {
    let one = 65536i64;
    assert_eq!(fx_lerp_vec(5, 2 * one, 5, 8 * one), vec![5 * one]);
}

#[test]
fn usize_lerp_walks_half_open_span() {
    assert_eq!(usize_lerp_vec(0, 10, 4, 18), vec![10, 12, 14, 16]);
    assert_eq!(usize_lerp(0, 10, 4, 18), vec![10, 12, 14, 16]);
    assert_eq!(usize_lerp_vec(3, 5, 3, 9), Vec::<usize>::new());
}

#[test]
fn u32_lerp_midpoint() {
    assert_eq!(u32_lerp(10, 20, 32768), 15);
    assert_eq!(u32_lerp(0, 255, 65536), 255);
    assert_eq!(u32_lerp(40, 40, 12345), 40);
}
