//! A posed occurrence of a model in the scene: one pose, one mesh. Created
//! once per visible object and re-posed every frame.

use vstd::prelude::*;

verus! {

use crate::cmodel::{CModel, cube_vertices, cube_triangles};
use crate::cmodel;
use crate::ctransform::CTransform;
use crate::ctransform;
use crate::cmatrix::SinCos;
use crate::fixed::FX_ONE;

pub struct CModelInstance {
    pub model: CModel,
    pub transform: CTransform,
}

impl CModelInstance {
    pub open spec fn wf(&self) -> bool {
        self.model.wf()
    }
}

/// A unit-cube instance posed at `(x, y, z)` with unit scale and no rotation.
pub fn new_cube(x: i64, y: i64, z: i64) -> (inst: CModelInstance)
    ensures
        inst.model.vertices@ == cube_vertices(),
        inst.model.triangles@ == cube_triangles(),
        inst.wf(),
        inst.transform.scale == (FX_ONE, FX_ONE, FX_ONE),
        inst.transform.rot == ((SinCos { s: 0i64, c: FX_ONE }), (SinCos { s: 0i64, c: FX_ONE }),
            (SinCos { s: 0i64, c: FX_ONE })),
        inst.transform.pos == (x, y, z),
{
    CModelInstance {
        model: cmodel::new_cube(),
        transform: ctransform::new(x, y, z),
    }
}

} // verus!
