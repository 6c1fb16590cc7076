//! The homogeneous clipper: triangles in 4D clip space are clipped against
//! the six canonical half-spaces `x <= w`, `x >= -w`, `y <= w`, `y >= -w`,
//! `z <= w` and `z >= -w`, one plane at a time, each plane consuming the
//! whole vertex/triangle list and producing the next one.
//!
//! Per plane and triangle, the vertices strictly outside the half-space are
//! counted: none lets the triangle through re-indexed; all three discard it;
//! one replaces the outside vertex by the two edge intersections and emits
//! two triangles over the resulting quad; two keep the single inside vertex
//! with the two intersections as one triangle. Intersections are found by
//! the parametric boundary condition `t = s(a) / (s(a) - s(b))` on the
//! plane's signed side function `s`; because a strictly outside vertex and a
//! non-outside vertex straddle the boundary, the denominator is never zero,
//! which settles the degenerate-intersection question by construction.

use vstd::prelude::*;

verus! {

use crate::triangle::Triangle;
use crate::fixed::{rdiv, rdiv64, lemma_rdiv_between, lemma_mul_bound};

pub struct Clipper {}

/// One of the six frustum half-space boundaries.
#[derive(Clone, Copy, Debug, PartialEq, Eq, Structural)]
pub enum ClipPlane {
    Near,
    Far,
    Right,
    Left,
    Top,
    Bottom,
}

/// The largest coordinate magnitude the clipper accepts; intersections of
/// bounded vertices stay bounded, so clipping never leaves this range.
pub const CLIP_MAX_COORD: i64 = 0x4000_0000_0000;

/// All four coordinates lie within the clipper's working range.
pub open spec fn v4_bounded(v: (i64, i64, i64, i64)) -> bool {
    -CLIP_MAX_COORD <= v.0 <= CLIP_MAX_COORD
        && -CLIP_MAX_COORD <= v.1 <= CLIP_MAX_COORD
        && -CLIP_MAX_COORD <= v.2 <= CLIP_MAX_COORD
        && -CLIP_MAX_COORD <= v.3 <= CLIP_MAX_COORD
}

/// The signed side function of a plane: zero on the boundary, and the
/// outside of the half-space is where it is positive (for the `Near`,
/// `Right`, `Top` planes) or negative (for the other three).
pub open spec fn side_spec(p: ClipPlane, v: (i64, i64, i64, i64)) -> int {
    match p {
        ClipPlane::Near => v.2 as int - v.3 as int,
        ClipPlane::Far => v.2 as int + v.3 as int,
        ClipPlane::Right => v.0 as int - v.3 as int,
        ClipPlane::Left => v.0 as int + v.3 as int,
        ClipPlane::Top => v.1 as int - v.3 as int,
        ClipPlane::Bottom => v.1 as int + v.3 as int,
    }
}

/// Whether a vertex lies strictly outside the half-space of a plane.
pub open spec fn outside_spec(p: ClipPlane, v: (i64, i64, i64, i64)) -> bool {
    match p {
        ClipPlane::Near => side_spec(p, v) > 0,
        ClipPlane::Far => side_spec(p, v) < 0,
        ClipPlane::Right => side_spec(p, v) > 0,
        ClipPlane::Left => side_spec(p, v) < 0,
        ClipPlane::Top => side_spec(p, v) > 0,
        ClipPlane::Bottom => side_spec(p, v) < 0,
    }
}

/// One coordinate of the boundary intersection on the edge from `a` to `b`:
/// the exact affine combination `(1 - t) a + t b` with
/// `t = sa / (sa - sb)`, rounded to the nearest representable value.
pub open spec fn isect_coord(ac: i64, bc: i64, sa: int, sb: int) -> int {
    let num = ac * (-sb) + bc * sa;
    let den = sa - sb;
    if den > 0 {
        rdiv(num, den)
    } else {
        rdiv(-num, -den)
    }
}

/// The boundary intersection vertex on the edge from `a` to `b`.
pub open spec fn isect_spec(
    p: ClipPlane,
    a: (i64, i64, i64, i64),
    b: (i64, i64, i64, i64),
) -> (i64, i64, i64, i64) {
    let sa = side_spec(p, a);
    let sb = side_spec(p, b);
    (
        isect_coord(a.0, b.0, sa, sb) as i64,
        isect_coord(a.1, b.1, sa, sb) as i64,
        isect_coord(a.2, b.2, sa, sb) as i64,
        isect_coord(a.3, b.3, sa, sb) as i64,
    )
}

/// What clipping one triangle against one plane emits, given that its
/// vertices will land in the output list starting at `index`: the vertices
/// to append and the re-indexed triangles, all inheriting the color.
pub open spec fn clip_tri_spec(
    p: ClipPlane, index: int,
    v0: (i64, i64, i64, i64), v1: (i64, i64, i64, i64), v2: (i64, i64, i64, i64),
    color: u32,
) -> (Seq<(i64, i64, i64, i64)>, Seq<Triangle>) {
    let o0 = outside_spec(p, v0);
    let o1 = outside_spec(p, v1);
    let o2 = outside_spec(p, v2);
    let n = (if o0 { 1int } else { 0int }) + (if o1 { 1int } else { 0int })
        + (if o2 { 1int } else { 0int });
    if n == 0 {
        (
            seq![v0, v1, v2],
            seq![
                Triangle {
                    i0: index as usize,
                    i1: (index + 1) as usize,
                    i2: (index + 2) as usize,
                    color,
                },
            ],
        )
    } else if n == 1 {
        let (v_out, v_in0, v_in1) = if o0 {
            (v0, v1, v2)
        } else if o1 {
            (v1, v0, v2)
        } else {
            (v2, v0, v1)
        };
        (
            seq![v_in0, v_in1, isect_spec(p, v_out, v_in0), isect_spec(p, v_out, v_in1)],
            seq![
                Triangle {
                    i0: index as usize,
                    i1: (index + 1) as usize,
                    i2: (index + 2) as usize,
                    color,
                },
                Triangle {
                    i0: (index + 1) as usize,
                    i1: (index + 2) as usize,
                    i2: (index + 3) as usize,
                    color,
                },
            ],
        )
    } else if n == 2 {
        let (v_in, v_out0, v_out1) = if !o0 {
            (v0, v1, v2)
        } else if !o1 {
            (v1, v0, v2)
        } else {
            (v2, v0, v1)
        };
        (
            seq![v_in, isect_spec(p, v_in, v_out0), isect_spec(p, v_in, v_out1)],
            seq![
                Triangle {
                    i0: index as usize,
                    i1: (index + 1) as usize,
                    i2: (index + 2) as usize,
                    color,
                },
            ],
        )
    } else {
        (Seq::empty(), Seq::empty())
    }
}

/// The rest of one plane's pass: triangles `j` onward clipped, their output
/// appended to what is already emitted.
pub open spec fn clip_plane_from(
    p: ClipPlane,
    verts: Seq<(i64, i64, i64, i64)>, tris: Seq<Triangle>, j: int,
    out_v: Seq<(i64, i64, i64, i64)>, out_t: Seq<Triangle>,
) -> (Seq<(i64, i64, i64, i64)>, Seq<Triangle>)
    decreases tris.len() - j,
{
    if j < 0 || j >= tris.len() {
        (out_v, out_t)
    } else {
        let t = tris[j];
        let r = clip_tri_spec(
            p, out_v.len() as int,
            verts[t.i0 as int], verts[t.i1 as int], verts[t.i2 as int],
            t.color,
        );
        clip_plane_from(p, verts, tris, j + 1, out_v + r.0, out_t + r.1)
    }
}

/// One whole plane's pass over a vertex/triangle list.
pub open spec fn clip_plane_spec(
    p: ClipPlane,
    verts: Seq<(i64, i64, i64, i64)>, tris: Seq<Triangle>,
) -> (Seq<(i64, i64, i64, i64)>, Seq<Triangle>) {
    clip_plane_from(p, verts, tris, 0, Seq::empty(), Seq::empty())
}

/// The full clip: all six planes in order, each pass feeding the next.
pub open spec fn clip_spec(
    verts: Seq<(i64, i64, i64, i64)>, tris: Seq<Triangle>,
) -> (Seq<(i64, i64, i64, i64)>, Seq<Triangle>) {
    let r1 = clip_plane_spec(ClipPlane::Near, verts, tris);
    let r2 = clip_plane_spec(ClipPlane::Far, r1.0, r1.1);
    let r3 = clip_plane_spec(ClipPlane::Right, r2.0, r2.1);
    let r4 = clip_plane_spec(ClipPlane::Left, r3.0, r3.1);
    let r5 = clip_plane_spec(ClipPlane::Top, r4.0, r4.1);
    clip_plane_spec(ClipPlane::Bottom, r5.0, r5.1)
}

/// A weighted mean with nonnegative weights stays between its two values.
proof fn lemma_wmean_between(ac: int, bc: int, wa: int, wb: int, lo: int, hi: int)
    by (nonlinear_arith)
    requires
        wa >= 0,
        wb >= 0,
        lo <= ac <= hi,
        lo <= bc <= hi,
    ensures
        lo * (wa + wb) <= ac * wa + bc * wb,
        ac * wa + bc * wb <= hi * (wa + wb),
{
}

/// The signed side value of a vertex for a plane.
fn side_val(p: ClipPlane, v: &(i64, i64, i64, i64)) -> (s: i128)
    ensures
        s == side_spec(p, *v),
{
    match p {
        ClipPlane::Near => v.2 as i128 - v.3 as i128,
        ClipPlane::Far => v.2 as i128 + v.3 as i128,
        ClipPlane::Right => v.0 as i128 - v.3 as i128,
        ClipPlane::Left => v.0 as i128 + v.3 as i128,
        ClipPlane::Top => v.1 as i128 - v.3 as i128,
        ClipPlane::Bottom => v.1 as i128 + v.3 as i128,
    }
}

/// Whether a vertex lies strictly outside the half-space of a plane.
fn outside(p: ClipPlane, v: &(i64, i64, i64, i64)) -> (r: bool)
    ensures
        r == outside_spec(p, *v),
{
    let s: i128 = side_val(p, v);
    match p {
        ClipPlane::Near => s > 0,
        ClipPlane::Far => s < 0,
        ClipPlane::Right => s > 0,
        ClipPlane::Left => s < 0,
        ClipPlane::Top => s > 0,
        ClipPlane::Bottom => s < 0,
    }
}

/// One intersection coordinate.
fn isect_c(ac: i64, bc: i64, sa: i128, sb: i128, lim: i64) -> (r: i64)
    requires
        -lim <= ac <= lim,
        -lim <= bc <= lim,
        0 <= lim <= CLIP_MAX_COORD,
        -0x1_0000_0000_0000 <= sa <= 0x1_0000_0000_0000,
        -0x1_0000_0000_0000 <= sb <= 0x1_0000_0000_0000,
        sa != sb,
        (sa >= 0 && sb <= 0) || (sa <= 0 && sb >= 0),
    ensures
        r == isect_coord(ac, bc, sa as int, sb as int),
        (if ac <= bc { ac } else { bc }) <= r <= (if ac <= bc { bc } else { ac }),
{
    proof {
        lemma_mul_bound(ac as int, -(sb as int), 0x4000_0000_0000, 0x1_0000_0000_0000);
        lemma_mul_bound(bc as int, sa as int, 0x4000_0000_0000, 0x1_0000_0000_0000);
    }
    let num: i128 = ac as i128 * (-sb) + bc as i128 * sa;
    let den: i128 = sa - sb;
    let ghost lo: int = if ac <= bc { ac as int } else { bc as int };
    let ghost hi: int = if ac <= bc { bc as int } else { ac as int };
    if den > 0 {
        proof {
            lemma_wmean_between(ac as int, bc as int, -(sb as int), sa as int, lo, hi);
            lemma_rdiv_between(num as int, den as int, lo, hi);
        }
        rdiv64(num, den)
    } else {
        proof {
            lemma_wmean_between(ac as int, bc as int, sb as int, -(sa as int), lo, hi);
            assert(ac as int * (sb as int) + bc as int * (-(sa as int)) == -(num as int))
                by (nonlinear_arith)
                requires
                    num as int == ac as int * (-(sb as int)) + bc as int * (sa as int),
            ;
            lemma_rdiv_between(-(num as int), -(den as int), lo, hi);
        }
        rdiv64(-num, -den)
    }
}

/// The boundary intersection vertex on the edge from `a` to `b`, which must
/// straddle the plane (one of them strictly outside).
fn isect(
    p: ClipPlane,
    a: &(i64, i64, i64, i64),
    b: &(i64, i64, i64, i64),
) -> (r: (i64, i64, i64, i64))
    requires
        v4_bounded(*a),
        v4_bounded(*b),
        (outside_spec(p, *a) && !outside_spec(p, *b))
            || (!outside_spec(p, *a) && outside_spec(p, *b)),
    ensures
        r == isect_spec(p, *a, *b),
        v4_bounded(r),
{
    let sa: i128 = side_val(p, a);
    let sb: i128 = side_val(p, b);
    proof {
        if p == ClipPlane::Near || p == ClipPlane::Right || p == ClipPlane::Top {
            assert(sa != sb && (((sa as int) >= 0 && (sb as int) <= 0) || ((sa as int) <= 0 && (sb as int) >= 0)));
        } else {
            assert(sa != sb && (((sa as int) >= 0 && (sb as int) <= 0) || ((sa as int) <= 0 && (sb as int) >= 0)));
        }
    }
    (
        isect_c(a.0, b.0, sa, sb, CLIP_MAX_COORD),
        isect_c(a.1, b.1, sa, sb, CLIP_MAX_COORD),
        isect_c(a.2, b.2, sa, sb, CLIP_MAX_COORD),
        isect_c(a.3, b.3, sa, sb, CLIP_MAX_COORD),
    )
}

/// Clips one triangle against one plane, emitting vertices that will land at
/// `base` in the output list and the triangles over them.
#[verifier::rlimit(60)]
fn clip_tri(
    p: ClipPlane,
    base: usize,
    v0: (i64, i64, i64, i64),
    v1: (i64, i64, i64, i64),
    v2: (i64, i64, i64, i64),
    color: u32,
) -> (r: (Vec<(i64, i64, i64, i64)>, Vec<Triangle>))
    requires
        v4_bounded(v0),
        v4_bounded(v1),
        v4_bounded(v2),
        base + 4 <= usize::MAX,
    ensures
        (r.0@, r.1@) == clip_tri_spec(p, base as int, v0, v1, v2, color),
        verts_bounded(r.0@),
        tris_wf(r.1@, base as int + r.0@.len()),
        r.0@.len() <= 4,
        r.1@.len() <= 2,
{
    let mut new_vertices: Vec<(i64, i64, i64, i64)> = Vec::new();
    let mut new_triangles: Vec<Triangle> = Vec::new();

    let o0: bool = outside(p, &v0);
    let o1: bool = outside(p, &v1);
    let o2: bool = outside(p, &v2);
    let mut n: u8 = 0;
    if o0 {
        n = n + 1;
    }
    if o1 {
        n = n + 1;
    }
    if o2 {
        n = n + 1;
    }

    if n == 0 {
        new_vertices.push(v0);
        new_vertices.push(v1);
        new_vertices.push(v2);
        new_triangles.push(Triangle { i0: base, i1: base + 1, i2: base + 2, color });
        proof {
            assert(new_vertices@ =~= clip_tri_spec(p, base as int, v0, v1, v2, color).0);
            assert(new_triangles@ =~= clip_tri_spec(p, base as int, v0, v1, v2, color).1);
        }
    } else if n == 1 {
        let (v_out, v_in0, v_in1): (
            (i64, i64, i64, i64),
            (i64, i64, i64, i64),
            (i64, i64, i64, i64),
        ) = if o0 {
            (v0, v1, v2)
        } else if o1 {
            (v1, v0, v2)
        } else {
            (v2, v0, v1)
        };
        let p0: (i64, i64, i64, i64) = isect(p, &v_out, &v_in0);
        let p1: (i64, i64, i64, i64) = isect(p, &v_out, &v_in1);
        new_vertices.push(v_in0);
        new_vertices.push(v_in1);
        new_vertices.push(p0);
        new_vertices.push(p1);
        new_triangles.push(Triangle { i0: base, i1: base + 1, i2: base + 2, color });
        new_triangles.push(Triangle { i0: base + 1, i1: base + 2, i2: base + 3, color });
        proof {
            assert(new_vertices@ =~= clip_tri_spec(p, base as int, v0, v1, v2, color).0);
            assert(new_triangles@ =~= clip_tri_spec(p, base as int, v0, v1, v2, color).1);
        }
    } else if n == 2 {
        let (v_in, v_out0, v_out1): (
            (i64, i64, i64, i64),
            (i64, i64, i64, i64),
            (i64, i64, i64, i64),
        ) = if !o0 {
            (v0, v1, v2)
        } else if !o1 {
            (v1, v0, v2)
        } else {
            (v2, v0, v1)
        };
        let p0: (i64, i64, i64, i64) = isect(p, &v_in, &v_out0);
        let p1: (i64, i64, i64, i64) = isect(p, &v_in, &v_out1);
        new_vertices.push(v_in);
        new_vertices.push(p0);
        new_vertices.push(p1);
        new_triangles.push(Triangle { i0: base, i1: base + 1, i2: base + 2, color });
        proof {
            assert(new_vertices@ =~= clip_tri_spec(p, base as int, v0, v1, v2, color).0);
            assert(new_triangles@ =~= clip_tri_spec(p, base as int, v0, v1, v2, color).1);
        }
    } else {
        proof {
            assert(new_vertices@ =~= clip_tri_spec(p, base as int, v0, v1, v2, color).0);
            assert(new_triangles@ =~= clip_tri_spec(p, base as int, v0, v1, v2, color).1);
        }
    }
    (new_vertices, new_triangles)
}

impl Clipper {
    /// One plane's pass: clips every triangle of the list against `plane`,
    /// consuming the input lists and leaving the re-indexed output in their
    /// place.
    pub fn clip_to_plane(
        vertices: &mut Vec<(i64, i64, i64, i64)>,
        triangles: &mut Vec<Triangle>,
        plane: ClipPlane,
    )
        requires
            tris_wf(old(triangles)@, old(vertices)@.len() as int),
            verts_bounded(old(vertices)@),
            old(triangles)@.len() <= 0x0800_0000,
        ensures
            (final(vertices)@, final(triangles)@)
                == clip_plane_spec(plane, old(vertices)@, old(triangles)@),
            tris_wf(final(triangles)@, final(vertices)@.len() as int),
            verts_bounded(final(vertices)@),
            final(triangles)@.len() <= 2 * old(triangles)@.len(),
            final(vertices)@.len() <= 4 * old(triangles)@.len(),
    {
        let ghost verts0 = vertices@;
        let ghost tris0 = triangles@;
        let mut clipped_vertices: Vec<(i64, i64, i64, i64)> = Vec::new();
        let mut clipped_triangles: Vec<Triangle> = Vec::new();
        let len: usize = triangles.len();
        let mut j: usize = 0;
        while j < len
            invariant
                verts0 == vertices@,
                tris0 == triangles@,
                tris_wf(tris0, verts0.len() as int),
                verts_bounded(verts0),
                len == tris0.len(),
                len <= 0x0800_0000,
                j <= len,
                clipped_vertices@.len() <= 4 * j,
                clipped_triangles@.len() <= 2 * j,
                verts_bounded(clipped_vertices@),
                tris_wf(clipped_triangles@, clipped_vertices@.len() as int),
                clip_plane_from(plane, verts0, tris0, j as int,
                    clipped_vertices@, clipped_triangles@)
                    == clip_plane_spec(plane, verts0, tris0),
            decreases len - j,
        {
            let t: Triangle = triangles[j];
            let v0: (i64, i64, i64, i64) = vertices[t.i0];
            let v1: (i64, i64, i64, i64) = vertices[t.i1];
            let v2: (i64, i64, i64, i64) = vertices[t.i2];
            let base: usize = clipped_vertices.len();
            let (mut nv, mut nt): (Vec<(i64, i64, i64, i64)>, Vec<Triangle>) =
                clip_tri(plane, base, v0, v1, v2, t.color);
            clipped_vertices.append(&mut nv);
            clipped_triangles.append(&mut nt);
            j = j + 1;
        }
        *vertices = clipped_vertices;
        *triangles = clipped_triangles;
    }

    /// Clips the lists against the canonical boundary `-w <= v <= w` of clip
    /// space: all six frustum planes in order, each pass feeding the next.
    pub fn clip(
        vertices: &mut Vec<(i64, i64, i64, i64)>,
        triangles: &mut Vec<Triangle>,
    )
        requires
            tris_wf(old(triangles)@, old(vertices)@.len() as int),
            verts_bounded(old(vertices)@),
            old(triangles)@.len() <= 0x0020_0000,
        ensures
            (final(vertices)@, final(triangles)@)
                == clip_spec(old(vertices)@, old(triangles)@),
            tris_wf(final(triangles)@, final(vertices)@.len() as int),
            verts_bounded(final(vertices)@),
            final(triangles)@.len() <= 64 * old(triangles)@.len(),
    {
        Clipper::clip_to_plane(vertices, triangles, Clipper::get_clip_near());
        Clipper::clip_to_plane(vertices, triangles, Clipper::get_clip_far());
        Clipper::clip_to_plane(vertices, triangles, Clipper::get_clip_right());
        Clipper::clip_to_plane(vertices, triangles, Clipper::get_clip_left());
        Clipper::clip_to_plane(vertices, triangles, Clipper::get_clip_top());
        Clipper::clip_to_plane(vertices, triangles, Clipper::get_clip_bottom());
    }

    /// The near half-space `z <= w`.
    pub fn get_clip_near() -> (p: ClipPlane)
        ensures
            p == ClipPlane::Near,
    {
        ClipPlane::Near
    }

    /// The far half-space `z >= -w`.
    pub fn get_clip_far() -> (p: ClipPlane)
        ensures
            p == ClipPlane::Far,
    {
        ClipPlane::Far
    }

    /// The right half-space `x <= w`.
    pub fn get_clip_right() -> (p: ClipPlane)
        ensures
            p == ClipPlane::Right,
    {
        ClipPlane::Right
    }

    /// The left half-space `x >= -w`.
    pub fn get_clip_left() -> (p: ClipPlane)
        ensures
            p == ClipPlane::Left,
    {
        ClipPlane::Left
    }

    /// The top half-space `y <= w`.
    pub fn get_clip_top() -> (p: ClipPlane)
        ensures
            p == ClipPlane::Top,
    {
        ClipPlane::Top
    }

    /// The bottom half-space `y >= -w`.
    pub fn get_clip_bottom() -> (p: ClipPlane)
        ensures
            p == ClipPlane::Bottom,
    {
        ClipPlane::Bottom
    }
}

/// A vertex lies inside all six half-spaces: `|x|, |y|, |z| <= w`.
pub open spec fn inside_all(v: (i64, i64, i64, i64)) -> bool {
    !outside_spec(ClipPlane::Near, v)
        && !outside_spec(ClipPlane::Far, v)
        && !outside_spec(ClipPlane::Right, v)
        && !outside_spec(ClipPlane::Left, v)
        && !outside_spec(ClipPlane::Top, v)
        && !outside_spec(ClipPlane::Bottom, v)
}

/// One plane's pass leaves a triangle with no vertex outside that plane
/// untouched: same three vertices, same color, indices re-based to zero.
pub proof fn lemma_clip_plane_inside(
    p: ClipPlane,
    v0: (i64, i64, i64, i64), v1: (i64, i64, i64, i64), v2: (i64, i64, i64, i64),
    c: u32,
)
    requires
        !outside_spec(p, v0),
        !outside_spec(p, v1),
        !outside_spec(p, v2),
    ensures
        clip_plane_spec(p, seq![v0, v1, v2], seq![Triangle { i0: 0, i1: 1, i2: 2, color: c }])
            == (seq![v0, v1, v2], seq![Triangle { i0: 0, i1: 1, i2: 2, color: c }]),
{
    let verts = seq![v0, v1, v2];
    let t = Triangle { i0: 0usize, i1: 1usize, i2: 2usize, color: c };
    let tris = seq![t];
    let r = clip_tri_spec(p, 0, v0, v1, v2, c);
    assert(r.0 =~= verts);
    assert(r.1 =~= tris);
    assert(Seq::<(i64, i64, i64, i64)>::empty() + r.0 =~= verts);
    assert(Seq::<Triangle>::empty() + r.1 =~= tris);
    assert(clip_plane_from(p, verts, tris, 1, verts, tris) == (verts, tris));
    assert(clip_plane_spec(p, verts, tris) == (verts, tris));
}

/// A triangle whose vertices all lie inside every half-space passes through
/// the whole clipper unchanged: the same three vertices and the same color
/// come out, as one triangle over indices 0, 1, 2.
pub proof fn lemma_clip_inside_passes_through(
    v0: (i64, i64, i64, i64), v1: (i64, i64, i64, i64), v2: (i64, i64, i64, i64),
    c: u32,
)
    requires
        inside_all(v0),
        inside_all(v1),
        inside_all(v2),
    ensures
        clip_spec(seq![v0, v1, v2], seq![Triangle { i0: 0, i1: 1, i2: 2, color: c }])
            == (seq![v0, v1, v2], seq![Triangle { i0: 0, i1: 1, i2: 2, color: c }]),
{
    lemma_clip_plane_inside(ClipPlane::Near, v0, v1, v2, c);
    lemma_clip_plane_inside(ClipPlane::Far, v0, v1, v2, c);
    lemma_clip_plane_inside(ClipPlane::Right, v0, v1, v2, c);
    lemma_clip_plane_inside(ClipPlane::Left, v0, v1, v2, c);
    lemma_clip_plane_inside(ClipPlane::Top, v0, v1, v2, c);
    lemma_clip_plane_inside(ClipPlane::Bottom, v0, v1, v2, c);
}

/// One plane's pass removes a triangle with all three vertices outside that
/// plane entirely: no vertices and no triangles come out of that sub-step.
pub proof fn lemma_clip_plane_outside_rejects(
    p: ClipPlane,
    v0: (i64, i64, i64, i64), v1: (i64, i64, i64, i64), v2: (i64, i64, i64, i64),
    c: u32,
)
    requires
        outside_spec(p, v0),
        outside_spec(p, v1),
        outside_spec(p, v2),
    ensures
        clip_plane_spec(p, seq![v0, v1, v2], seq![Triangle { i0: 0, i1: 1, i2: 2, color: c }])
            == (Seq::<(i64, i64, i64, i64)>::empty(), Seq::<Triangle>::empty()),
{
    let verts = seq![v0, v1, v2];
    let t = Triangle { i0: 0usize, i1: 1usize, i2: 2usize, color: c };
    let tris = seq![t];
    let r = clip_tri_spec(p, 0, v0, v1, v2, c);
    assert(r.0 =~= Seq::<(i64, i64, i64, i64)>::empty());
    assert(r.1 =~= Seq::<Triangle>::empty());
    assert(Seq::<(i64, i64, i64, i64)>::empty() + r.0 =~= Seq::<(i64, i64, i64, i64)>::empty());
    assert(Seq::<Triangle>::empty() + r.1 =~= Seq::<Triangle>::empty());
    assert(clip_plane_from(p, verts, tris, 1,
        Seq::<(i64, i64, i64, i64)>::empty(), Seq::<Triangle>::empty())
        == (Seq::<(i64, i64, i64, i64)>::empty(), Seq::<Triangle>::empty()));
    assert(clip_plane_spec(p, verts, tris)
        == (Seq::<(i64, i64, i64, i64)>::empty(), Seq::<Triangle>::empty()));
}

/// Every triangle's indices fall inside a vertex list of length `n`.
pub open spec fn tris_wf(tris: Seq<Triangle>, n: int) -> bool {
    forall|i: int| 0 <= i < tris.len() ==> (#[trigger] tris[i]).indices_below(n)
}

/// Every vertex lies within the clipper's working range.
pub open spec fn verts_bounded(verts: Seq<(i64, i64, i64, i64)>) -> bool {
    forall|i: int| 0 <= i < verts.len() ==> v4_bounded(#[trigger] verts[i])
}

} // verus!
