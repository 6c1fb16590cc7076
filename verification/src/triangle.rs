//! An indexed triangle: three indices into the owning model's vertex list and
//! a packed 24-bit RGB color.

use vstd::prelude::*;

verus! {

#[derive(Clone, Copy, Debug, PartialEq, Eq, Structural)]
pub struct Triangle {
    pub i0: usize,
    pub i1: usize,
    pub i2: usize,
    pub color: u32,
}

impl Triangle {
    pub fn new(i0: usize, i1: usize, i2: usize, color: u32) -> (t: Triangle)
        ensures
            t == (Triangle { i0, i1, i2, color }),
    {
        Triangle { i0, i1, i2, color }
    }

    /// All three vertex indices fall inside a vertex list of length `n`.
    pub open spec fn indices_below(&self, n: int) -> bool {
        self.i0 < n && self.i1 < n && self.i2 < n
    }
}

} // verus!
