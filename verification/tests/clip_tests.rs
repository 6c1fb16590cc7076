use cerulean::cclip::{Clipper, ClipPlane};
use cerulean::triangle::Triangle;

const ONE: i64 = 65536;

#[test]
fn triangle_inside_all_planes_passes_unchanged() {
    let mut verts = vec![
        (0, 0, 5 * ONE, 10 * ONE),
        (ONE, 0, 5 * ONE, 10 * ONE),
        (0, ONE, 5 * ONE, 10 * ONE),
    ];
    let original = verts.clone();
    let mut tris = vec![Triangle::new(0, 1, 2, 0x00123456)];
    Clipper::clip(&mut verts, &mut tris);
    assert_eq!(verts, original);
    assert_eq!(tris.len(), 1);
    assert_eq!((tris[0].i0, tris[0].i1, tris[0].i2), (0, 1, 2));
    assert_eq!(tris[0].color, 0x00123456);
}

#[test]
fn triangle_outside_one_plane_is_rejected_entirely() {
    // all x strictly greater than w: outside the right half-space
    let mut verts = vec![
        (20 * ONE, 0, 0, 10 * ONE),
        (30 * ONE, ONE, 0, 10 * ONE),
        (21 * ONE, -ONE, 0, 10 * ONE),
    ];
    let mut tris = vec![Triangle::new(0, 1, 2, 0x00FF0000)];
    Clipper::clip(&mut verts, &mut tris);
    assert_eq!(verts.len(), 0);
    assert_eq!(tris.len(), 0);
}

#[test]
fn one_vertex_out_splits_into_two_triangles() {
    let mut verts = vec![
        (5 * ONE, 0, 0, 10 * ONE),
        (5 * ONE, 5 * ONE, 0, 10 * ONE),
        (20 * ONE, 0, 0, 10 * ONE),
    ];
    let mut tris = vec![Triangle::new(0, 1, 2, 0x0000FF00)];
    Clipper::clip_to_plane(&mut verts, &mut tris, ClipPlane::Right);
    assert_eq!(verts.len(), 4);
    assert_eq!(tris.len(), 2);
    // the two kept inside vertices come first
    assert_eq!(verts[0], (5 * ONE, 0, 0, 10 * ONE));
    assert_eq!(verts[1], (5 * ONE, 5 * ONE, 0, 10 * ONE));
    // the first intersection lies exactly on the boundary x == w
    assert_eq!(verts[2], (10 * ONE, 0, 0, 10 * ONE));
    assert_eq!(verts[2].0, verts[2].3);
    assert_eq!(tris[0].color, 0x0000FF00);
    assert_eq!(tris[1].color, 0x0000FF00);
}

#[test]
fn two_vertices_out_leave_one_triangle() {
    let mut verts = vec![
        (5 * ONE, 0, 0, 10 * ONE),
        (20 * ONE, 5 * ONE, 0, 10 * ONE),
        (20 * ONE, -5 * ONE, 0, 10 * ONE),
    ];
    let mut tris = vec![Triangle::new(0, 1, 2, 0x000000FF)];
    Clipper::clip_to_plane(&mut verts, &mut tris, ClipPlane::Right);
    assert_eq!(verts.len(), 3);
    assert_eq!(tris.len(), 1);
    assert_eq!(verts[0], (5 * ONE, 0, 0, 10 * ONE));
    // both intersections lie on the boundary
    assert_eq!(verts[1].0, verts[1].3);
    assert_eq!(verts[2].0, verts[2].3);
    assert_eq!(tris[0].color, 0x000000FF);
}

#[test]
fn plane_constructors_name_the_six_half_spaces() {
    assert_eq!(Clipper::get_clip_near(), ClipPlane::Near);
    assert_eq!(Clipper::get_clip_far(), ClipPlane::Far);
    assert_eq!(Clipper::get_clip_right(), ClipPlane::Right);
    assert_eq!(Clipper::get_clip_left(), ClipPlane::Left);
    assert_eq!(Clipper::get_clip_top(), ClipPlane::Top);
    assert_eq!(Clipper::get_clip_bottom(), ClipPlane::Bottom);
}

#[test]
fn near_plane_counts_z_against_w() {
    // z > w is outside the near half-space and is discarded by that pass
    let mut verts = vec![
        (0, 0, 11 * ONE, 10 * ONE),
        (ONE, 0, 12 * ONE, 10 * ONE),
        (0, ONE, 13 * ONE, 10 * ONE),
    ];
    let mut tris = vec![Triangle::new(0, 1, 2, 0x00AAAAAA)];
    Clipper::clip_to_plane(&mut verts, &mut tris, ClipPlane::Near);
    assert_eq!(verts.len(), 0);
    assert_eq!(tris.len(), 0);
}
