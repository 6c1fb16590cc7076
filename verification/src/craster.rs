//! The raster buffer: an owned 2D pixel grid, one packed 32-bit color per
//! pixel, stored row-major. Access is bounds-checked and never fatal: an
//! out-of-range `set` is a no-op and an out-of-range `get` yields transparent
//! black, since scan conversion routinely computes coordinates that fall off
//! the raster.

use vstd::prelude::*;

verus! {

pub struct CRaster {
    pub width: usize,
    pub height: usize,
    pub data: Vec<u32>,
}

/// A row-major pixel index lies inside the flat buffer.
pub proof fn lemma_rowmajor_in_range(x: int, y: int, w: int, h: int) by (nonlinear_arith)
    requires
        0 <= x < w,
        0 <= y < h,
    ensures
        0 <= x + w * y,
        x + w * y < w * h,
{
}

impl CRaster {
    /// The flat pixel array always holds exactly one entry per grid cell.
    pub open spec fn wf(&self) -> bool {
        self.data@.len() == self.width * self.height
            && self.width * self.height <= usize::MAX
    }

    pub fn new(width: usize, height: usize) -> (r: CRaster)
        requires
            width * height <= usize::MAX,
        ensures
            r.wf(),
            r.width == width,
            r.height == height,
            forall|i: int| 0 <= i < r.data@.len() ==> r.data@[i] == 0u32,
    {
        let len: usize = width * height;
        let mut data: Vec<u32> = Vec::new();
        let mut i: usize = 0;
        while i < len
            invariant
                i <= len,
                data@.len() == i,
                forall|j: int| 0 <= j < i ==> data@[j] == 0u32,
            decreases len - i,
        {
            data.push(0);
            i = i + 1;
        }
        CRaster { width, height, data }
    }

    /// The stored color at `(x, y)`, or transparent black off the raster.
    pub fn get(&self, x: usize, y: usize) -> (c: u32)
        requires
            self.wf(),
        ensures
            c == if x < self.width && y < self.height {
                self.data@[x + self.width * y]
            } else {
                0u32
            },
    {
        if x < self.width && y < self.height {
            proof {
                lemma_rowmajor_in_range(x as int, y as int, self.width as int, self.height as int);
            }
            self.data[x + self.width * y]
        } else {
            0x0000_0000
        }
    }

    /// Stores `value` at `(x, y)`; off the raster this changes nothing.
    pub fn set(&mut self, x: usize, y: usize, value: u32)
        requires
            old(self).wf(),
        ensures
            final(self).wf(),
            final(self).width == old(self).width,
            final(self).height == old(self).height,
            final(self).data@ == if x < old(self).width && y < old(self).height {
                old(self).data@.update(x + old(self).width * y, value)
            } else {
                old(self).data@
            },
    {
        if x < self.width && y < self.height {
            proof {
                lemma_rowmajor_in_range(x as int, y as int, self.width as int, self.height as int);
            }
            let i: usize = x + self.width * y;
            self.data.set(i, value);
        }
    }
}

} // verus!
