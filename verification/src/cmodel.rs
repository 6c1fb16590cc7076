//! A model: an immutable list of vertices and a list of indexed, colored
//! triangles, shared read-only by any number of instances; and the fixed
//! unit-cube mesh the demo scene is built from.

use vstd::prelude::*;

verus! {

use crate::triangle::Triangle;
use crate::fixed::FX_ONE;

/// The fixed-point representation of -1.
pub const FX_NEG_ONE: i64 = -65536;

pub struct CModel {
    pub vertices: Vec<(i64, i64, i64)>,
    pub triangles: Vec<Triangle>,
}

impl CModel {
    /// Every triangle's vertex indices fall inside the vertex list.
    pub open spec fn wf(&self) -> bool {
        forall|i: int| 0 <= i < self.triangles@.len()
            ==> (#[trigger] self.triangles@[i]).indices_below(self.vertices@.len() as int)
    }
}

/// The eight corners of the cube of side two centered on the origin.
pub open spec fn cube_vertices() -> Seq<(i64, i64, i64)> {
    seq![
        (FX_ONE, FX_ONE, FX_ONE),
        (FX_NEG_ONE, FX_ONE, FX_ONE),
        (FX_NEG_ONE, FX_NEG_ONE, FX_ONE),
        (FX_ONE, FX_NEG_ONE, FX_ONE),
        (FX_ONE, FX_ONE, FX_NEG_ONE),
        (FX_NEG_ONE, FX_ONE, FX_NEG_ONE),
        (FX_NEG_ONE, FX_NEG_ONE, FX_NEG_ONE),
        (FX_ONE, FX_NEG_ONE, FX_NEG_ONE),
    ]
}

/// The cube's twelve triangles, two per face, one color per face.
pub open spec fn cube_triangles() -> Seq<Triangle> {
    seq![
        Triangle { i0: 0, i1: 1, i2: 2, color: 0x00ff0000 },
        Triangle { i0: 0, i1: 2, i2: 3, color: 0x00ff0000 },
        Triangle { i0: 4, i1: 0, i2: 3, color: 0x0000ff00 },
        Triangle { i0: 4, i1: 3, i2: 7, color: 0x0000ff00 },
        Triangle { i0: 5, i1: 4, i2: 7, color: 0x000000ff },
        Triangle { i0: 5, i1: 7, i2: 6, color: 0x000000ff },
        Triangle { i0: 1, i1: 5, i2: 6, color: 0x00ffff00 },
        Triangle { i0: 1, i1: 6, i2: 2, color: 0x00ffff00 },
        Triangle { i0: 4, i1: 5, i2: 1, color: 0x00a020f0 },
        Triangle { i0: 4, i1: 1, i2: 0, color: 0x00a020f0 },
        Triangle { i0: 2, i1: 6, i2: 7, color: 0x0000ffff },
        Triangle { i0: 2, i1: 7, i2: 3, color: 0x0000ffff },
    ]
}

/// The unit cube mesh: side two, centered on the origin, six colored faces.
pub fn new_cube() -> (m: CModel)
    ensures
        m.vertices@ == cube_vertices(),
        m.triangles@ == cube_triangles(),
        m.wf(),
{
    let red: u32 = 0x00ff0000;
    let green: u32 = 0x0000ff00;
    let blue: u32 = 0x000000ff;
    let yellow: u32 = 0x00ffff00;
    let purple: u32 = 0x00a020f0;
    let cyan: u32 = 0x0000ffff;

    let mut v: Vec<(i64, i64, i64)> = Vec::new();
    let mut t: Vec<Triangle> = Vec::new();

    v.push((FX_ONE, FX_ONE, FX_ONE));
    v.push((FX_NEG_ONE, FX_ONE, FX_ONE));
    v.push((FX_NEG_ONE, FX_NEG_ONE, FX_ONE));
    v.push((FX_ONE, FX_NEG_ONE, FX_ONE));
    v.push((FX_ONE, FX_ONE, FX_NEG_ONE));
    v.push((FX_NEG_ONE, FX_ONE, FX_NEG_ONE));
    v.push((FX_NEG_ONE, FX_NEG_ONE, FX_NEG_ONE));
    v.push((FX_ONE, FX_NEG_ONE, FX_NEG_ONE));

    t.push(Triangle::new(0, 1, 2, red));
    t.push(Triangle::new(0, 2, 3, red));
    t.push(Triangle::new(4, 0, 3, green));
    t.push(Triangle::new(4, 3, 7, green));
    t.push(Triangle::new(5, 4, 7, blue));
    t.push(Triangle::new(5, 7, 6, blue));
    t.push(Triangle::new(1, 5, 6, yellow));
    t.push(Triangle::new(1, 6, 2, yellow));
    t.push(Triangle::new(4, 5, 1, purple));
    t.push(Triangle::new(4, 1, 0, purple));
    t.push(Triangle::new(2, 6, 7, cyan));
    t.push(Triangle::new(2, 7, 3, cyan));

    proof {
        assert(v@ =~= cube_vertices());
        assert(t@ =~= cube_triangles());
    }
    CModel { vertices: v, triangles: t }
}

} // verus!
