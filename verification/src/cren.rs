//! The primitive rasterizer: bounded-integer line drawing, rectangle and
//! triangle scan conversion, and the depth-tested fill that the scene
//! pipeline draws through.
//!
//! Every drawing routine is total: pixels that fall off the raster are
//! silently discarded, exactly as the bounds-checked `set_pixel` discards
//! them, and each routine's contract gives the resulting pixel array as a
//! fold of such guarded writes.

use vstd::prelude::*;

verus! {

use crate::craster::{CRaster, lemma_rowmajor_in_range};
use crate::cmatrix::Matrix4x4;

pub struct CRen {
    pub raster: CRaster,
}

/// One guarded pixel write: the buffer with `(x, y)` set to `c`, unchanged
/// when `(x, y)` lies off a `w` by `h` raster.
pub open spec fn set_pixel_spec(w: int, h: int, data: Seq<u32>, x: int, y: int, c: u32) -> Seq<u32> {
    if 0 <= x < w && 0 <= y < h {
        data.update(x + w * y, c)
    } else {
        data
    }
}

/// A vertical run of pixels at column `x`, rows `y..=y1`.
pub open spec fn vline_from(w: int, h: int, data: Seq<u32>, x: int, y: int, y1: int, c: u32) -> Seq<u32>
    decreases y1 - y + 1,
{
    if y > y1 {
        data
    } else {
        vline_from(w, h, set_pixel_spec(w, h, data, x, y, c), x, y + 1, y1, c)
    }
}

/// A horizontal run of pixels at row `y`, columns `x..=x1`.
pub open spec fn hline_from(w: int, h: int, data: Seq<u32>, x: int, x1: int, y: int, c: u32) -> Seq<u32>
    decreases x1 - x + 1,
{
    if x > x1 {
        data
    } else {
        hline_from(w, h, set_pixel_spec(w, h, data, x, y, c), x + 1, x1, y, c)
    }
}

/// The rest of a shallow Bresenham walk: from `(x, y)` with error term `d`,
/// one pixel per column up to `x1`, stepping `y` by `yi` when the error term
/// goes positive.
pub open spec fn gentle_from(
    w: int, h: int, data: Seq<u32>,
    x: int, y: int, d: int,
    x1: int, dx: int, dy: int, yi: int, c: u32,
) -> Seq<u32>
    decreases x1 - x + 1,
{
    if x > x1 {
        data
    } else {
        let data2 = set_pixel_spec(w, h, data, x, y, c);
        if d > 0 {
            gentle_from(w, h, data2, x + 1, y + yi, d - 2 * dx + 2 * dy, x1, dx, dy, yi, c)
        } else {
            gentle_from(w, h, data2, x + 1, y, d + 2 * dy, x1, dx, dy, yi, c)
        }
    }
}

/// The whole shallow Bresenham line from `(x0, y0)` to `(x1, y1)`.
pub open spec fn gentle_line_spec(
    w: int, h: int, data: Seq<u32>,
    x0: int, y0: int, x1: int, y1: int, c: u32,
) -> Seq<u32> {
    let dx = x1 - x0;
    let dy0 = y1 - y0;
    let yi = if dy0 < 0 { -1int } else { 1int };
    let dy = if dy0 < 0 { -dy0 } else { dy0 };
    gentle_from(w, h, data, x0, y0, 2 * dy - dx, x1, dx, dy, yi, c)
}

/// The rest of a steep Bresenham walk: one pixel per row up to `y1`,
/// stepping `x` by `xi` when the error term goes positive.
pub open spec fn steep_from(
    w: int, h: int, data: Seq<u32>,
    x: int, y: int, d: int,
    y1: int, dx: int, dy: int, xi: int, c: u32,
) -> Seq<u32>
    decreases y1 - y + 1,
{
    if y > y1 {
        data
    } else {
        let data2 = set_pixel_spec(w, h, data, x, y, c);
        if d > 0 {
            steep_from(w, h, data2, x + xi, y + 1, d - 2 * dy + 2 * dx, y1, dx, dy, xi, c)
        } else {
            steep_from(w, h, data2, x, y + 1, d + 2 * dx, y1, dx, dy, xi, c)
        }
    }
}

/// The whole steep Bresenham line from `(x0, y0)` to `(x1, y1)`.
pub open spec fn steep_line_spec(
    w: int, h: int, data: Seq<u32>,
    x0: int, y0: int, x1: int, y1: int, c: u32,
) -> Seq<u32> {
    let dy = y1 - y0;
    let dx0 = x1 - x0;
    let xi = if dx0 < 0 { -1int } else { 1int };
    let dx = if dx0 < 0 { -dx0 } else { dx0 };
    steep_from(w, h, data, x0, y0, 2 * dx - dy, y1, dx, dy, xi, c)
}

/// What `draw_line` draws: vertical and horizontal runs take a fast path;
/// otherwise the line is classified as shallow or steep by its larger delta
/// and walked from the lower endpoint of its major axis.
pub open spec fn line_spec(
    w: int, h: int, data: Seq<u32>,
    x0: int, y0: int, x1: int, y1: int, c: u32,
) -> Seq<u32> {
    if x0 == x1 {
        if y0 < y1 {
            vline_from(w, h, data, x0, y0, y1, c)
        } else {
            vline_from(w, h, data, x0, y1, y0, c)
        }
    } else if y0 == y1 {
        if x0 < x1 {
            hline_from(w, h, data, x0, x1, y0, c)
        } else {
            hline_from(w, h, data, x1, x0, y0, c)
        }
    } else if abs_int(y1 - y0) < abs_int(x1 - x0) {
        if x0 > x1 {
            gentle_line_spec(w, h, data, x1, y1, x0, y0, c)
        } else {
            gentle_line_spec(w, h, data, x0, y0, x1, y1, c)
        }
    } else {
        if y0 > y1 {
            steep_line_spec(w, h, data, x1, y1, x0, y0, c)
        } else {
            steep_line_spec(w, h, data, x0, y0, x1, y1, c)
        }
    }
}

pub open spec fn abs_int(x: int) -> int {
    if x < 0 { -x } else { x }
}

impl CRen {
    /// The raster is well formed and its sides fit the signed 32-bit
    /// coordinates that the drawing routines address pixels with.
    pub open spec fn wf(&self) -> bool {
        self.raster.wf()
            && self.raster.width <= i32::MAX
            && self.raster.height <= i32::MAX
    }

    pub open spec fn width_spec(&self) -> int {
        self.raster.width as int
    }

    pub open spec fn height_spec(&self) -> int {
        self.raster.height as int
    }

    /// Dimensions are unchanged and the raster is still well formed.
    pub open spec fn same_frame(&self, other: &CRen) -> bool {
        self.wf()
            && self.raster.width == other.raster.width
            && self.raster.height == other.raster.height
    }

    pub fn new(w: usize, h: usize) -> (ren: CRen)
        requires
            w * h <= usize::MAX,
            w <= i32::MAX,
            h <= i32::MAX,
        ensures
            ren.wf(),
            ren.raster.width == w,
            ren.raster.height == h,
            forall|i: int| 0 <= i < ren.raster.data@.len() ==> ren.raster.data@[i] == 0u32,
    {
        let raster: CRaster = CRaster::new(w, h);
        CRen { raster }
    }

    /// Resets every pixel to black.
    pub fn clear(&mut self)
        requires
            old(self).wf(),
        ensures
            final(self).same_frame(old(self)),
            final(self).raster.data@.len() == old(self).raster.data@.len(),
            forall|i: int| 0 <= i < final(self).raster.data@.len()
                ==> final(self).raster.data@[i] == 0u32,
    {
        self.fill(0x0000_0000);
    }

    /// Sets every pixel to `color`.
    pub fn fill(&mut self, color: u32)
        requires
            old(self).wf(),
        ensures
            final(self).same_frame(old(self)),
            final(self).raster.data@.len() == old(self).raster.data@.len(),
            forall|i: int| 0 <= i < final(self).raster.data@.len()
                ==> final(self).raster.data@[i] == color,
    {
        let len: usize = self.raster.data.len();
        let mut i: usize = 0;
        while i < len
            invariant
                self.wf(),
                self.raster.data@.len() == len,
                self.raster.width == old(self).raster.width,
                self.raster.height == old(self).raster.height,
                i <= len,
                forall|j: int| 0 <= j < i ==> self.raster.data@[j] == color,
            decreases len - i,
        {
            self.raster.data.set(i, color);
            i = i + 1;
        }
    }

    /// One bounds-checked pixel write.
    pub fn set_pixel(&mut self, x: i32, y: i32, color: u32)
        requires
            old(self).wf(),
        ensures
            final(self).same_frame(old(self)),
            final(self).raster.data@ == set_pixel_spec(
                old(self).width_spec(), old(self).height_spec(),
                old(self).raster.data@, x as int, y as int, color,
            ),
    {
        if x >= 0 && y >= 0 && (x as usize) < self.raster.width && (y as usize) < self.raster.height {
            proof {
                lemma_rowmajor_in_range(
                    x as int, y as int,
                    self.raster.width as int, self.raster.height as int,
                );
            }
            let i: usize = (x as usize) + self.raster.width * (y as usize);
            self.raster.data.set(i, color);
        }
    }

    /// A pixel write addressed with wide coordinates; anything outside the
    /// `i32` range is necessarily off the raster and is discarded.
    fn set_pixel_wide(&mut self, x: i64, y: i64, color: u32)
        requires
            old(self).wf(),
        ensures
            final(self).same_frame(old(self)),
            final(self).raster.data@ == set_pixel_spec(
                old(self).width_spec(), old(self).height_spec(),
                old(self).raster.data@, x as int, y as int, color,
            ),
    {
        if x >= i32::MIN as i64 && x <= i32::MAX as i64 && y >= i32::MIN as i64
            && y <= i32::MAX as i64 {
            self.set_pixel(x as i32, y as i32, color);
        }
    }

    /// The shallow Bresenham walk; one pixel per column from `x0` to `x1`.
    pub fn draw_gentle_line(&mut self, x0: i32, y0: i32, x1: i32, y1: i32, color: u32)
        requires
            old(self).wf(),
        ensures
            final(self).same_frame(old(self)),
            final(self).raster.data@ == gentle_line_spec(
                old(self).width_spec(), old(self).height_spec(),
                old(self).raster.data@, x0 as int, y0 as int, x1 as int, y1 as int, color,
            ),
    {
        let ghost w = self.width_spec();
        let ghost h = self.height_spec();
        let ghost data0 = self.raster.data@;
        let dx: i64 = x1 as i64 - x0 as i64;
        let mut dy: i64 = y1 as i64 - y0 as i64;
        let mut yi: i64 = 1;
        if dy < 0 {
            yi = -1;
            dy = -dy;
        }
        let mut d: i128 = 2 * dy as i128 - dx as i128;
        let mut y: i64 = y0 as i64;
        let mut x: i64 = x0 as i64;
        while x <= x1 as i64
            invariant
                self.wf(),
                self.raster.width == old(self).raster.width,
                self.raster.height == old(self).raster.height,
                w == self.raster.width as int,
                h == self.raster.height as int,
                -0x1_0000_0000 <= dx <= 0x1_0000_0000,
                0 <= dy <= 0x1_0000_0000,
                yi == 1i64 || yi == -1i64,
                x0 as int <= x,
                x - x0 as int <= 0x1_0000_0001,
                y0 as int - (x - x0 as int) <= y <= y0 as int + (x - x0 as int),
                -0x10_0000_0000 - (x - x0 as int) * 0x4_0000_0000 <= d,
                d <= 0x10_0000_0000 + (x - x0 as int) * 0x4_0000_0000,
                gentle_from(w, h, self.raster.data@, x as int, y as int, d as int,
                    x1 as int, dx as int, dy as int, yi as int, color)
                    == gentle_line_spec(w, h, data0, x0 as int, y0 as int, x1 as int,
                        y1 as int, color),
            decreases x1 as int - x + 1,
        {
            self.set_pixel_wide(x, y, color);
            if d > 0 {
                y = y + yi;
                d = d - 2 * dx as i128;
            }
            d = d + 2 * dy as i128;
            x = x + 1;
        }
    }

    /// The steep Bresenham walk; one pixel per row from `y0` to `y1`.
    pub fn draw_steep_line(&mut self, x0: i32, y0: i32, x1: i32, y1: i32, color: u32)
        requires
            old(self).wf(),
        ensures
            final(self).same_frame(old(self)),
            final(self).raster.data@ == steep_line_spec(
                old(self).width_spec(), old(self).height_spec(),
                old(self).raster.data@, x0 as int, y0 as int, x1 as int, y1 as int, color,
            ),
    {
        let ghost w = self.width_spec();
        let ghost h = self.height_spec();
        let ghost data0 = self.raster.data@;
        let mut dx: i64 = x1 as i64 - x0 as i64;
        let dy: i64 = y1 as i64 - y0 as i64;
        let mut xi: i64 = 1;
        if dx < 0 {
            xi = -1;
            dx = -dx;
        }
        let mut d: i128 = 2 * dx as i128 - dy as i128;
        let mut x: i64 = x0 as i64;
        let mut y: i64 = y0 as i64;
        while y <= y1 as i64
            invariant
                self.wf(),
                self.raster.width == old(self).raster.width,
                self.raster.height == old(self).raster.height,
                w == self.raster.width as int,
                h == self.raster.height as int,
                -0x1_0000_0000 <= dy <= 0x1_0000_0000,
                0 <= dx <= 0x1_0000_0000,
                xi == 1i64 || xi == -1i64,
                y0 as int <= y,
                y - y0 as int <= 0x1_0000_0001,
                x0 as int - (y - y0 as int) <= x <= x0 as int + (y - y0 as int),
                -0x10_0000_0000 - (y - y0 as int) * 0x4_0000_0000 <= d,
                d <= 0x10_0000_0000 + (y - y0 as int) * 0x4_0000_0000,
                steep_from(w, h, self.raster.data@, x as int, y as int, d as int,
                    y1 as int, dx as int, dy as int, xi as int, color)
                    == steep_line_spec(w, h, data0, x0 as int, y0 as int, x1 as int,
                        y1 as int, color),
            decreases y1 as int - y + 1,
        {
            self.set_pixel_wide(x, y, color);
            if d > 0 {
                x = x + xi;
                d = d - 2 * dy as i128;
            }
            d = d + 2 * dx as i128;
            y = y + 1;
        }
    }

    /// Draws the line between two endpoints: a horizontal or vertical run
    /// when one delta is zero, otherwise the shallow or steep Bresenham walk
    /// from the lower endpoint of the major axis. Which endpoint comes first
    /// does not matter; see `lemma_line_symmetric`.
    pub fn draw_line(&mut self, x0: i32, y0: i32, x1: i32, y1: i32, color: u32)
        requires
            old(self).wf(),
        ensures
            final(self).same_frame(old(self)),
            final(self).raster.data@ == line_spec(
                old(self).width_spec(), old(self).height_spec(),
                old(self).raster.data@, x0 as int, y0 as int, x1 as int, y1 as int, color,
            ),
    {
        let ghost w = self.width_spec();
        let ghost h = self.height_spec();
        let ghost data0 = self.raster.data@;
        if x0 == x1 {
            let lo: i32 = if y0 < y1 { y0 } else { y1 };
            let hi: i32 = if y0 < y1 { y1 } else { y0 };
            let mut y: i64 = lo as i64;
            while y <= hi as i64
                invariant
                    self.wf(),
                    self.raster.width == old(self).raster.width,
                    self.raster.height == old(self).raster.height,
                    w == self.raster.width as int,
                    h == self.raster.height as int,
                    lo as int <= y,
                    y <= hi as int + 1,
                    vline_from(w, h, self.raster.data@, x0 as int, y as int, hi as int, color)
                        == vline_from(w, h, data0, x0 as int, lo as int, hi as int, color),
                decreases hi as int - y + 1,
            {
                self.set_pixel_wide(x0 as i64, y, color);
                y = y + 1;
            }
        } else if y0 == y1 {
            let lo: i32 = if x0 < x1 { x0 } else { x1 };
            let hi: i32 = if x0 < x1 { x1 } else { x0 };
            let mut x: i64 = lo as i64;
            while x <= hi as i64
                invariant
                    self.wf(),
                    self.raster.width == old(self).raster.width,
                    self.raster.height == old(self).raster.height,
                    w == self.raster.width as int,
                    h == self.raster.height as int,
                    lo as int <= x,
                    x <= hi as int + 1,
                    hline_from(w, h, self.raster.data@, x as int, hi as int, y0 as int, color)
                        == hline_from(w, h, data0, lo as int, hi as int, y0 as int, color),
                decreases hi as int - x + 1,
            {
                self.set_pixel_wide(x, y0 as i64, color);
                x = x + 1;
            }
        } else {
            let dyl: i64 = y1 as i64 - y0 as i64;
            let dxl: i64 = x1 as i64 - x0 as i64;
            let ady: i64 = if dyl < 0 { -dyl } else { dyl };
            let adx: i64 = if dxl < 0 { -dxl } else { dxl };
            if ady < adx {
                if x0 > x1 {
                    self.draw_gentle_line(x1, y1, x0, y0, color);
                } else {
                    self.draw_gentle_line(x0, y0, x1, y1, color);
                }
            } else {
                if y0 > y1 {
                    self.draw_steep_line(x1, y1, x0, y0, color);
                } else {
                    self.draw_steep_line(x0, y0, x1, y1, color);
                }
            }
        }
    }
}

/// The rest of one blitted source column `i`: source pixels `(i, j)` for
/// `j` from `j0` up, copied to `(x + i, y + j)`.
pub open spec fn blit_col_from(
    w: int, h: int, data: Seq<u32>,
    sw: int, sh: int, src: Seq<u32>,
    x: int, y: int, i: int, j0: int,
) -> Seq<u32>
    decreases sh - j0,
{
    if j0 >= sh {
        data
    } else {
        blit_col_from(
            w, h,
            set_pixel_spec(w, h, data, x + i, y + j0, src[i + sw * j0]),
            sw, sh, src, x, y, i, j0 + 1,
        )
    }
}

/// The rest of a blit: source columns `i0` up, each copied in full.
pub open spec fn blit_from(
    w: int, h: int, data: Seq<u32>,
    sw: int, sh: int, src: Seq<u32>,
    x: int, y: int, i0: int,
) -> Seq<u32>
    decreases sw - i0,
{
    if i0 >= sw {
        data
    } else {
        blit_from(
            w, h,
            blit_col_from(w, h, data, sw, sh, src, x, y, i0, 0),
            sw, sh, src, x, y, i0 + 1,
        )
    }
}

/// The rest of a solid rectangle fill: rows `y` up to but not including
/// `y1`, each a full `draw_line` row.
pub open spec fn fill_rect_from(
    w: int, h: int, data: Seq<u32>,
    x0: int, x1: int, y: int, y1: int, c: u32,
) -> Seq<u32>
    decreases y1 - y,
{
    if y >= y1 {
        data
    } else {
        fill_rect_from(
            w, h,
            line_spec(w, h, data, x0, y, x1, y, c),
            x0, x1, y + 1, y1, c,
        )
    }
}

impl CRen {
    /// Copies a whole source raster onto this one with its top-left corner
    /// at `(x, y)`; pixels that land off this raster are discarded.
    pub fn draw_raster(&mut self, x: i32, y: i32, raster: &CRaster)
        requires
            old(self).wf(),
            raster.wf(),
            raster.width <= i32::MAX,
            raster.height <= i32::MAX,
        ensures
            final(self).same_frame(old(self)),
            final(self).raster.data@ == blit_from(
                old(self).width_spec(), old(self).height_spec(), old(self).raster.data@,
                raster.width as int, raster.height as int, raster.data@,
                x as int, y as int, 0,
            ),
    {
        let ghost w = self.width_spec();
        let ghost h = self.height_spec();
        let ghost data0 = self.raster.data@;
        let ghost sw = raster.width as int;
        let ghost sh = raster.height as int;
        let ghost src = raster.data@;
        let mut i: usize = 0;
        while i < raster.width
            invariant
                self.wf(),
                self.raster.width == old(self).raster.width,
                self.raster.height == old(self).raster.height,
                w == self.raster.width as int,
                h == self.raster.height as int,
                raster.wf(),
                sw == raster.width as int,
                sh == raster.height as int,
                src == raster.data@,
                raster.width <= i32::MAX,
                raster.height <= i32::MAX,
                i <= raster.width,
                blit_from(w, h, self.raster.data@, sw, sh, src, x as int, y as int, i as int)
                    == blit_from(w, h, data0, sw, sh, src, x as int, y as int, 0),
            decreases raster.width - i,
        {
            let mut j: usize = 0;
            while j < raster.height
                invariant
                    self.wf(),
                    self.raster.width == old(self).raster.width,
                    self.raster.height == old(self).raster.height,
                    w == self.raster.width as int,
                    h == self.raster.height as int,
                    raster.wf(),
                    sw == raster.width as int,
                    sh == raster.height as int,
                    src == raster.data@,
                    raster.width <= i32::MAX,
                    raster.height <= i32::MAX,
                    i < raster.width,
                    j <= raster.height,
                    blit_from(
                        w, h,
                        blit_col_from(w, h, self.raster.data@, sw, sh, src,
                            x as int, y as int, i as int, j as int),
                        sw, sh, src, x as int, y as int, i as int + 1,
                    ) == blit_from(w, h, data0, sw, sh, src, x as int, y as int, 0),
                decreases raster.height - j,
            {
                proof {
                    lemma_rowmajor_in_range(i as int, j as int, sw, sh);
                }
                let v: u32 = raster.data[i + raster.width * j];
                self.set_pixel_wide(x as i64 + i as i64, y as i64 + j as i64, v);
                j = j + 1;
            }
            i = i + 1;
        }
    }

    /// The axis-aligned rectangle outline through the two corner points:
    /// four lines, drawn left, right, top, bottom.
    pub fn draw_rect(&mut self, x0: i32, y0: i32, x1: i32, y1: i32, color: u32)
        requires
            old(self).wf(),
        ensures
            final(self).same_frame(old(self)),
            final(self).raster.data@ == ({
                let w = old(self).width_spec();
                let h = old(self).height_spec();
                let d1 = line_spec(w, h, old(self).raster.data@,
                    x0 as int, y0 as int, x0 as int, y1 as int, color);
                let d2 = line_spec(w, h, d1, x1 as int, y0 as int, x1 as int, y1 as int, color);
                let d3 = line_spec(w, h, d2, x0 as int, y0 as int, x1 as int, y0 as int, color);
                line_spec(w, h, d3, x0 as int, y1 as int, x1 as int, y1 as int, color)
            }),
    {
        self.draw_line(x0, y0, x0, y1, color);
        self.draw_line(x1, y0, x1, y1, color);
        self.draw_line(x0, y0, x1, y0, color);
        self.draw_line(x0, y1, x1, y1, color);
    }

    /// The solid axis-aligned rectangle between the two corner points: one
    /// full-row line per `y` in `y0..y1`.
    pub fn fill_rect(&mut self, x0: i32, y0: i32, x1: i32, y1: i32, color: u32)
        requires
            old(self).wf(),
        ensures
            final(self).same_frame(old(self)),
            final(self).raster.data@ == fill_rect_from(
                old(self).width_spec(), old(self).height_spec(), old(self).raster.data@,
                x0 as int, x1 as int, y0 as int, y1 as int, color,
            ),
    {
        let ghost w = self.width_spec();
        let ghost h = self.height_spec();
        let ghost data0 = self.raster.data@;
        let mut y: i64 = y0 as i64;
        while y < y1 as i64
            invariant
                self.wf(),
                self.raster.width == old(self).raster.width,
                self.raster.height == old(self).raster.height,
                w == self.raster.width as int,
                h == self.raster.height as int,
                y0 as int <= y,
                y <= y1 as int || y == y0 as int,
                fill_rect_from(w, h, self.raster.data@, x0 as int, x1 as int,
                    y as int, y1 as int, color)
                    == fill_rect_from(w, h, data0, x0 as int, x1 as int,
                        y0 as int, y1 as int, color),
            decreases y1 as int - y,
        {
            self.draw_line(x0, y as i32, x1, y as i32, color);
            y = y + 1;
        }
    }

    /// The triangle outline through three points: its three edges.
    pub fn draw_triangle(&mut self, x0: i32, y0: i32, x1: i32, y1: i32, x2: i32, y2: i32, color: u32)
        requires
            old(self).wf(),
        ensures
            final(self).same_frame(old(self)),
            final(self).raster.data@ == ({
                let w = old(self).width_spec();
                let h = old(self).height_spec();
                let d1 = line_spec(w, h, old(self).raster.data@,
                    x0 as int, y0 as int, x1 as int, y1 as int, color);
                let d2 = line_spec(w, h, d1, x0 as int, y0 as int, x2 as int, y2 as int, color);
                line_spec(w, h, d2, x1 as int, y1 as int, x2 as int, y2 as int, color)
            }),
    {
        self.draw_line(x0, y0, x1, y1, color);
        self.draw_line(x0, y0, x2, y2, color);
        self.draw_line(x1, y1, x2, y2, color);
    }
}

/// The three vertices reordered so their `y` coordinates ascend, by the same
/// three conditional exchanges the fill performs; ties keep input order.
pub open spec fn sort_by_y(x0: int, y0: int, x1: int, y1: int, x2: int, y2: int)
    -> (int, int, int, int, int, int)
{
    let (ax0, ay0, ax1, ay1) = if y1 < y0 {
        (x1, y1, x0, y0)
    } else {
        (x0, y0, x1, y1)
    };
    let (bx0, by0, bx2, by2) = if y2 < ay0 {
        (x2, y2, ax0, ay0)
    } else {
        (ax0, ay0, x2, y2)
    };
    let (cx1, cy1, cx2, cy2) = if by2 < ay1 {
        (bx2, by2, ax1, ay1)
    } else {
        (ax1, ay1, bx2, by2)
    };
    (bx0, by0, cx1, cy1, cx2, cy2)
}

/// What one interpolated edge table holds at row-offset `k`: the rounded
/// interpolant, or the single midpoint for a degenerate edge.
pub open spec fn seg_at(i0: int, d0: int, i1: int, d1: int, k: int) -> int {
    if i0 >= i1 {
        crate::fixed::tdiv(d0 + d1, 2)
    } else {
        crate::cmath::i32_lerp_at(i0, d0, i1, d1, k)
    }
}

/// Length of one interpolated edge table.
pub open spec fn seg_len(i0: int, i1: int) -> int {
    if i0 >= i1 {
        1
    } else {
        i1 - i0 + 1
    }
}

/// The composite edge: tables for edges 0→1 and 1→2 spliced end to end with
/// the duplicate shared vertex dropped, spanning every row from `y0` to `y2`.
pub open spec fn composite_at(
    x0: int, y0: int, x1: int, y1: int, x2: int, y2: int, k: int,
) -> int {
    if k < seg_len(y0, y1) - 1 {
        seg_at(y0, x0, y1, x1, k)
    } else {
        seg_at(y1, x1, y2, x2, k - (seg_len(y0, y1) - 1))
    }
}

/// Whether the direct edge 0→2 runs left of the composite edge, decided once
/// at the middle row; for a convex triangle the two edges cannot cross, so
/// one comparison classifies every row.
pub open spec fn left_is_direct(
    x0: int, y0: int, x1: int, y1: int, x2: int, y2: int,
) -> bool {
    let m = (y2 - y0 + 1) / 2;
    seg_at(y0, x0, y2, x2, m) < composite_at(x0, y0, x1, y1, x2, y2, m)
}

/// The left fill bound at row-offset `k` (for vertices already sorted by `y`).
pub open spec fn tri_left_at(
    x0: int, y0: int, x1: int, y1: int, x2: int, y2: int, k: int,
) -> int {
    if left_is_direct(x0, y0, x1, y1, x2, y2) {
        seg_at(y0, x0, y2, x2, k)
    } else {
        composite_at(x0, y0, x1, y1, x2, y2, k)
    }
}

/// The right fill bound at row-offset `k`.
pub open spec fn tri_right_at(
    x0: int, y0: int, x1: int, y1: int, x2: int, y2: int, k: int,
) -> int {
    if left_is_direct(x0, y0, x1, y1, x2, y2) {
        composite_at(x0, y0, x1, y1, x2, y2, k)
    } else {
        seg_at(y0, x0, y2, x2, k)
    }
}

/// The rest of one filled scanline: pixels `x..xr` at row `y` (the right
/// bound itself is left unpainted).
pub open spec fn fill_row_from(
    w: int, h: int, data: Seq<u32>, x: int, xr: int, y: int, c: u32,
) -> Seq<u32>
    decreases xr - x,
{
    if x >= xr {
        data
    } else {
        fill_row_from(w, h, set_pixel_spec(w, h, data, x, y, c), x + 1, xr, y, c)
    }
}

/// The remaining scanlines of a triangle fill, rows `y..=y2`, each filled
/// between the interpolated left and right edge bounds.
pub open spec fn tri_rows_from(
    w: int, h: int, data: Seq<u32>,
    x0: int, y0: int, x1: int, y1: int, x2: int, y2: int,
    y: int, c: u32,
) -> Seq<u32>
    decreases y2 - y + 1,
{
    if y > y2 {
        data
    } else {
        tri_rows_from(
            w, h,
            fill_row_from(
                w, h, data,
                tri_left_at(x0, y0, x1, y1, x2, y2, y - y0),
                tri_right_at(x0, y0, x1, y1, x2, y2, y - y0),
                y, c,
            ),
            x0, y0, x1, y1, x2, y2, y + 1, c,
        )
    }
}

/// What `fill_triangle` paints: the vertices sorted by `y`, then every row
/// between the top and bottom vertex filled between the two edges.
pub open spec fn fill_triangle_spec(
    w: int, h: int, data: Seq<u32>,
    x0: int, y0: int, x1: int, y1: int, x2: int, y2: int, c: u32,
) -> Seq<u32> {
    let (sx0, sy0, sx1, sy1, sx2, sy2) = sort_by_y(x0, y0, x1, y1, x2, y2);
    tri_rows_from(w, h, data, sx0, sy0, sx1, sy1, sx2, sy2, sy0, c)
}

/// Three vertices with a depth each, reordered so their `y` coordinates
/// ascend, by the same three conditional exchanges as the flat fill.
pub open spec fn sort_by_y_z(
    x0: int, y0: int, z0: i64,
    x1: int, y1: int, z1: i64,
    x2: int, y2: int, z2: i64,
) -> (int, int, i64, int, int, i64, int, int, i64) {
    let (ax0, ay0, az0, ax1, ay1, az1) = if y1 < y0 {
        (x1, y1, z1, x0, y0, z0)
    } else {
        (x0, y0, z0, x1, y1, z1)
    };
    let (bx0, by0, bz0, bx2, by2, bz2) = if y2 < ay0 {
        (x2, y2, z2, ax0, ay0, az0)
    } else {
        (ax0, ay0, az0, x2, y2, z2)
    };
    let (cx1, cy1, cz1, cx2, cy2, cz2) = if by2 < ay1 {
        (bx2, by2, bz2, ax1, ay1, az1)
    } else {
        (ax1, ay1, az1, bx2, by2, bz2)
    };
    (bx0, by0, bz0, cx1, cy1, cz1, cx2, cy2, cz2)
}

/// What one fixed-point edge table holds at row-offset `k`.
pub open spec fn zseg_at(i0: int, d0: i64, i1: int, d1: i64, k: int) -> i64 {
    if i0 >= i1 {
        crate::fixed::clamp64(crate::fixed::rdiv(d0 as int + d1 as int, 2)) as i64
    } else {
        crate::cmath::fx_lerp_at(i0, d0 as int, i1, d1 as int, k) as i64
    }
}

/// The composite fixed-point edge, spliced like the composite `x` edge.
pub open spec fn zcomposite_at(
    y0: int, z0: i64, y1: int, z1: i64, y2: int, z2: i64, k: int,
) -> i64 {
    if k < seg_len(y0, y1) - 1 {
        zseg_at(y0, z0, y1, z1, k)
    } else {
        zseg_at(y1, z1, y2, z2, k - (seg_len(y0, y1) - 1))
    }
}

/// The depth bound following the left fill edge.
pub open spec fn tri_left_z_at(
    x0: int, y0: int, z0: i64,
    x1: int, y1: int, z1: i64,
    x2: int, y2: int, z2: i64, k: int,
) -> i64 {
    if left_is_direct(x0, y0, x1, y1, x2, y2) {
        zseg_at(y0, z0, y2, z2, k)
    } else {
        zcomposite_at(y0, z0, y1, z1, y2, z2, k)
    }
}

/// The depth bound following the right fill edge.
pub open spec fn tri_right_z_at(
    x0: int, y0: int, z0: i64,
    x1: int, y1: int, z1: i64,
    x2: int, y2: int, z2: i64, k: int,
) -> i64 {
    if left_is_direct(x0, y0, x1, y1, x2, y2) {
        zcomposite_at(y0, z0, y1, z1, y2, z2, k)
    } else {
        zseg_at(y0, z0, y2, z2, k)
    }
}

/// One depth-tested pixel: written, and its depth recorded, only when it
/// lies on the raster and its interpolated depth is strictly nearer than the
/// stored one (larger depth means nearer).
pub open spec fn zpix_spec(
    w: int, h: int, data: Seq<u32>, zb: Seq<i64>,
    x: int, y: int, c: u32, z: i64,
) -> (Seq<u32>, Seq<i64>) {
    if 0 <= x < w && 0 <= y < h && zb[x + w * y] < z {
        (data.update(x + w * y, c), zb.update(x + w * y, z))
    } else {
        (data, zb)
    }
}

/// The rest of one depth-tested scanline: pixels `x..xr` at row `y`, each
/// with its depth interpolated between the row's edge depths.
pub open spec fn zrow_from(
    w: int, h: int, data: Seq<u32>, zb: Seq<i64>,
    x: int, xl: int, xr: int, y: int, zl: i64, zr: i64, c: u32,
) -> (Seq<u32>, Seq<i64>)
    decreases xr - x,
{
    if x >= xr {
        (data, zb)
    } else {
        let z = crate::cmath::fx_lerp_at(xl, zl as int, xr, zr as int, x - xl) as i64;
        let p = zpix_spec(w, h, data, zb, x, y, c, z);
        zrow_from(w, h, p.0, p.1, x + 1, xl, xr, y, zl, zr, c)
    }
}

/// The remaining scanlines of a depth-tested triangle fill.
pub open spec fn zrows_from(
    w: int, h: int, data: Seq<u32>, zb: Seq<i64>,
    x0: int, y0: int, z0: i64,
    x1: int, y1: int, z1: i64,
    x2: int, y2: int, z2: i64,
    y: int, c: u32,
) -> (Seq<u32>, Seq<i64>)
    decreases y2 - y + 1,
{
    if y > y2 {
        (data, zb)
    } else {
        let k = y - y0;
        let p = zrow_from(
            w, h, data, zb,
            tri_left_at(x0, y0, x1, y1, x2, y2, k),
            tri_left_at(x0, y0, x1, y1, x2, y2, k),
            tri_right_at(x0, y0, x1, y1, x2, y2, k),
            y,
            tri_left_z_at(x0, y0, z0, x1, y1, z1, x2, y2, z2, k),
            tri_right_z_at(x0, y0, z0, x1, y1, z1, x2, y2, z2, k),
            c,
        );
        zrows_from(w, h, p.0, p.1, x0, y0, z0, x1, y1, z1, x2, y2, z2, y + 1, c)
    }
}

/// What the depth-tested fill paints: the vertices sorted by `y`, then every
/// scanline filled between the two edges wherever the interpolated depth
/// wins the depth test.
pub open spec fn fill_triangle_z_spec(
    w: int, h: int, data: Seq<u32>, zb: Seq<i64>,
    x0: int, y0: int, z0: i64,
    x1: int, y1: int, z1: i64,
    x2: int, y2: int, z2: i64,
    c: u32,
) -> (Seq<u32>, Seq<i64>) {
    let s = sort_by_y_z(x0, y0, z0, x1, y1, z1, x2, y2, z2);
    zrows_from(w, h, data, zb, s.0, s.1, s.2, s.3, s.4, s.5, s.6, s.7, s.8, s.1, c)
}

/// The alpha byte of a packed color.
pub open spec fn alpha_spec(c: u32) -> int {
    c as int / 0x0100_0000
}

/// The red byte of a packed color.
pub open spec fn red_spec(c: u32) -> int {
    (c as int % 0x0100_0000) / 0x0001_0000
}

/// The green byte of a packed color.
pub open spec fn green_spec(c: u32) -> int {
    (c as int % 0x0001_0000) / 0x0000_0100
}

/// The blue byte of a packed color.
pub open spec fn blue_spec(c: u32) -> int {
    c as int % 0x0000_0100
}

/// Three channel bytes packed into one color word.
pub open spec fn pack_spec(r: int, g: int, b: int) -> int {
    r * 0x0001_0000 + g * 0x0000_0100 + b
}

/// One color channel scaled by a fixed-point factor: the exact product plus
/// one half, truncated toward zero, then clamped to a byte — matching how a
/// shaded intensity is rounded and saturated.
pub open spec fn scale_channel_spec(ch: int, k: int) -> int {
    let v = crate::fixed::tdiv(2 * (ch * k) + crate::fixed::FX_ONE as int,
        2 * crate::fixed::FX_ONE as int);
    if v < 0 {
        0
    } else if v > 255 {
        255
    } else {
        v
    }
}

/// A whole packed color scaled channel by channel.
pub open spec fn scale_color_spec(c: u32, k: int) -> int {
    pack_spec(
        scale_channel_spec(red_spec(c), k),
        scale_channel_spec(green_spec(c), k),
        scale_channel_spec(blue_spec(c), k),
    )
}

impl CRen {
    pub fn get_alpha(&mut self, color: u32) -> (r: u8)
        ensures
            *final(self) == *old(self),
            r == alpha_spec(color),
    {
        (color / 0x0100_0000) as u8
    }

    pub fn get_red(&mut self, color: u32) -> (r: u8)
        ensures
            *final(self) == *old(self),
            r == red_spec(color),
    {
        ((color % 0x0100_0000) / 0x0001_0000) as u8
    }

    pub fn get_green(&mut self, color: u32) -> (r: u8)
        ensures
            *final(self) == *old(self),
            r == green_spec(color),
    {
        ((color % 0x0001_0000) / 0x0000_0100) as u8
    }

    pub fn get_blue(&mut self, color: u32) -> (r: u8)
        ensures
            *final(self) == *old(self),
            r == blue_spec(color),
    {
        (color % 0x0000_0100) as u8
    }

    pub fn get_color(&mut self, r: u8, g: u8, b: u8) -> (c: u32)
        ensures
            *final(self) == *old(self),
            c == pack_spec(r as int, g as int, b as int),
    {
        (r as u32) * 256 * 256 + (g as u32) * 256 + (b as u32)
    }

    /// Scales each channel of `color` by the fixed-point factor `k`, for
    /// flat-shaded intensity variation.
    pub fn scale_color(&mut self, color: u32, k: i64) -> (c: u32)
        ensures
            *final(self) == *old(self),
            c == scale_color_spec(color, k as int),
    {
        let r: u8 = self.get_red(color);
        let g: u8 = self.get_green(color);
        let b: u8 = self.get_blue(color);
        let rs: u8 = Self::scale_channel(r, k);
        let gs: u8 = Self::scale_channel(g, k);
        let bs: u8 = Self::scale_channel(b, k);
        self.get_color(rs, gs, bs)
    }

    fn scale_channel(ch: u8, k: i64) -> (r: u8)
        ensures
            r == scale_channel_spec(ch as int, k as int),
    {
        proof {
            crate::fixed::lemma_mul_bound(ch as int, k as int, 0x100, 0x8000_0000_0000_0000);
        }
        let num: i128 = 2 * (ch as i128 * k as i128) + crate::fixed::FX_ONE as i128;
        let v: i128 = crate::fixed::tdiv_i128(num, 2 * crate::fixed::FX_ONE as i128);
        if v < 0 {
            0
        } else if v > 255 {
            255
        } else {
            v as u8
        }
    }
}

impl CRen {
    /// The solid triangle through three points: vertices are sorted by `y`,
    /// the two short edges are spliced into one composite edge facing the
    /// direct long edge, and every scanline between the top and bottom
    /// vertex is filled from the left edge up to (not including) the right.
    pub fn fill_triangle(
        &mut self,
        x0: i32, y0: i32, x1: i32, y1: i32, x2: i32, y2: i32,
        color: u32,
    )
        requires
            old(self).wf(),
        ensures
            final(self).same_frame(old(self)),
            final(self).raster.data@ == fill_triangle_spec(
                old(self).width_spec(), old(self).height_spec(), old(self).raster.data@,
                x0 as int, y0 as int, x1 as int, y1 as int, x2 as int, y2 as int, color,
            ),
    {
        let ghost w = self.width_spec();
        let ghost h = self.height_spec();
        let ghost data0 = self.raster.data@;
        let ghost o = (x0 as int, y0 as int, x1 as int, y1 as int, x2 as int, y2 as int);

        let mut x0 = x0;
        let mut y0 = y0;
        let mut x1 = x1;
        let mut y1 = y1;
        let mut x2 = x2;
        let mut y2 = y2;
        if y1 < y0 {
            let tx = x0;
            let ty = y0;
            x0 = x1;
            y0 = y1;
            x1 = tx;
            y1 = ty;
        }
        if y2 < y0 {
            let tx = x0;
            let ty = y0;
            x0 = x2;
            y0 = y2;
            x2 = tx;
            y2 = ty;
        }
        if y2 < y1 {
            let tx = x1;
            let ty = y1;
            x1 = x2;
            y1 = y2;
            x2 = tx;
            y2 = ty;
        }
        proof {
            assert(sort_by_y(o.0, o.1, o.2, o.3, o.4, o.5)
                == (x0 as int, y0 as int, x1 as int, y1 as int, x2 as int, y2 as int));
        }
        let ghost sx0 = x0 as int;
        let ghost sy0 = y0 as int;
        let ghost sx1 = x1 as int;
        let ghost sy1 = y1 as int;
        let ghost sx2 = x2 as int;
        let ghost sy2 = y2 as int;

        let mut x01: Vec<i32> = crate::cmath::i32_lerp_vec(y0, x0, y1, x1);
        let mut x12: Vec<i32> = crate::cmath::i32_lerp_vec(y1, x1, y2, x2);
        let x02: Vec<i32> = crate::cmath::i32_lerp_vec(y0, x0, y2, x2);
        x01.pop();
        x01.append(&mut x12);
        let x012: Vec<i32> = x01;
        let ghost rows = sy2 - sy0 + 1;
        proof {
            assert(x02@.len() == rows);
            assert(x012@.len() == rows);
            assert(forall|k: int| 0 <= k < rows ==> x02@[k] == seg_at(sy0, sx0, sy2, sx2, k));
            assert(forall|k: int| 0 <= k < rows
                ==> x012@[k] == composite_at(sx0, sy0, sx1, sy1, sx2, sy2, k));
        }

        let m: usize = x012.len() / 2;
        let dir_left: bool = x02[m] < x012[m];
        let (x_left, x_right): (Vec<i32>, Vec<i32>) = if dir_left {
            (x02, x012)
        } else {
            (x012, x02)
        };
        proof {
            assert(dir_left == left_is_direct(sx0, sy0, sx1, sy1, sx2, sy2));
            assert(forall|k: int| 0 <= k < rows
                ==> x_left@[k] == tri_left_at(sx0, sy0, sx1, sy1, sx2, sy2, k));
            assert(forall|k: int| 0 <= k < rows
                ==> x_right@[k] == tri_right_at(sx0, sy0, sx1, sy1, sx2, sy2, k));
        }

        let mut y: i64 = y0 as i64;
        while y <= y2 as i64
            invariant
                self.wf(),
                self.raster.width == old(self).raster.width,
                self.raster.height == old(self).raster.height,
                w == self.raster.width as int,
                h == self.raster.height as int,
                sy0 <= sy1 <= sy2,
                sy0 == y0 as int,
                sy2 == y2 as int,
                rows == sy2 - sy0 + 1,
                x_left@.len() == rows,
                x_right@.len() == rows,
                forall|k: int| 0 <= k < rows
                    ==> x_left@[k] == tri_left_at(sx0, sy0, sx1, sy1, sx2, sy2, k),
                forall|k: int| 0 <= k < rows
                    ==> x_right@[k] == tri_right_at(sx0, sy0, sx1, sy1, sx2, sy2, k),
                sy0 <= y <= sy2 + 1,
                tri_rows_from(w, h, self.raster.data@, sx0, sy0, sx1, sy1, sx2, sy2,
                    y as int, color)
                    == tri_rows_from(w, h, data0, sx0, sy0, sx1, sy1, sx2, sy2, sy0, color),
            decreases sy2 - y + 1,
        {
            let r: usize = (y - y0 as i64) as usize;
            let xl: i32 = x_left[r];
            let xr: i32 = x_right[r];
            let mut x: i64 = xl as i64;
            while x < xr as i64
                invariant
                    self.wf(),
                    self.raster.width == old(self).raster.width,
                    self.raster.height == old(self).raster.height,
                    w == self.raster.width as int,
                    h == self.raster.height as int,
                    sy0 <= y <= sy2,
                    xl as int <= x,
                    x <= xr as int || x == xl as int,
                    xl as int == tri_left_at(sx0, sy0, sx1, sy1, sx2, sy2, y - sy0),
                    xr as int == tri_right_at(sx0, sy0, sx1, sy1, sx2, sy2, y - sy0),
                    tri_rows_from(w, h,
                        fill_row_from(w, h, self.raster.data@, x as int, xr as int,
                            y as int, color),
                        sx0, sy0, sx1, sy1, sx2, sy2, y as int + 1, color)
                        == tri_rows_from(w, h, data0, sx0, sy0, sx1, sy1, sx2, sy2,
                            sy0, color),
                decreases xr as int - x,
            {
                self.set_pixel_wide(x, y, color);
                x = x + 1;
            }
            y = y + 1;
        }
    }
}

impl CRen {
    /// The depth-tested triangle fill: the same scanline geometry as
    /// `fill_triangle`, with a per-vertex depth interpolated along the edges
    /// and across each scanline; a pixel is written, and its depth recorded,
    /// only when its interpolated depth is strictly nearer (larger) than the
    /// depth already stored for it. This is the sole occlusion mechanism.
    pub fn fill_triangle_with_z_buffer(
        &mut self,
        z_buffer: &mut Vec<i64>,
        x0: i32, y0: i32, z0: i64,
        x1: i32, y1: i32, z1: i64,
        x2: i32, y2: i32, z2: i64,
        color: u32,
    )
        requires
            old(self).wf(),
            old(z_buffer)@.len() == old(self).raster.width * old(self).raster.height,
        ensures
            final(self).same_frame(old(self)),
            final(z_buffer)@.len() == old(z_buffer)@.len(),
            (final(self).raster.data@, final(z_buffer)@) == fill_triangle_z_spec(
                old(self).width_spec(), old(self).height_spec(),
                old(self).raster.data@, old(z_buffer)@,
                x0 as int, y0 as int, z0,
                x1 as int, y1 as int, z1,
                x2 as int, y2 as int, z2,
                color,
            ),
    {
        let ghost w = self.width_spec();
        let ghost h = self.height_spec();
        let ghost data0 = self.raster.data@;
        let ghost zb0 = z_buffer@;
        let ghost o = (x0 as int, y0 as int, z0, x1 as int, y1 as int, z1,
            x2 as int, y2 as int, z2);

        let mut x0 = x0;
        let mut y0 = y0;
        let mut z0 = z0;
        let mut x1 = x1;
        let mut y1 = y1;
        let mut z1 = z1;
        let mut x2 = x2;
        let mut y2 = y2;
        let mut z2 = z2;
        if y1 < y0 {
            let tx = x0;
            let ty = y0;
            let tz = z0;
            x0 = x1;
            y0 = y1;
            z0 = z1;
            x1 = tx;
            y1 = ty;
            z1 = tz;
        }
        if y2 < y0 {
            let tx = x0;
            let ty = y0;
            let tz = z0;
            x0 = x2;
            y0 = y2;
            z0 = z2;
            x2 = tx;
            y2 = ty;
            z2 = tz;
        }
        if y2 < y1 {
            let tx = x1;
            let ty = y1;
            let tz = z1;
            x1 = x2;
            y1 = y2;
            z1 = z2;
            x2 = tx;
            y2 = ty;
            z2 = tz;
        }
        proof {
            assert(sort_by_y_z(o.0, o.1, o.2, o.3, o.4, o.5, o.6, o.7, o.8)
                == (x0 as int, y0 as int, z0, x1 as int, y1 as int, z1,
                    x2 as int, y2 as int, z2));
        }
        let ghost sx0 = x0 as int;
        let ghost sy0 = y0 as int;
        let ghost sz0 = z0;
        let ghost sx1 = x1 as int;
        let ghost sy1 = y1 as int;
        let ghost sz1 = z1;
        let ghost sx2 = x2 as int;
        let ghost sy2 = y2 as int;
        let ghost sz2 = z2;

        let mut x01: Vec<i32> = crate::cmath::i32_lerp_vec(y0, x0, y1, x1);
        let mut z01: Vec<i64> = crate::cmath::fx_lerp_vec(y0 as i64, z0, y1 as i64, z1);
        let mut x12: Vec<i32> = crate::cmath::i32_lerp_vec(y1, x1, y2, x2);
        let mut z12: Vec<i64> = crate::cmath::fx_lerp_vec(y1 as i64, z1, y2 as i64, z2);
        let x02: Vec<i32> = crate::cmath::i32_lerp_vec(y0, x0, y2, x2);
        let z02: Vec<i64> = crate::cmath::fx_lerp_vec(y0 as i64, z0, y2 as i64, z2);
        x01.pop();
        z01.pop();
        x01.append(&mut x12);
        z01.append(&mut z12);
        let x012: Vec<i32> = x01;
        let z012: Vec<i64> = z01;
        let ghost rows = sy2 - sy0 + 1;
        proof {
            assert(x02@.len() == rows);
            assert(z02@.len() == rows);
            assert(x012@.len() == rows);
            assert(z012@.len() == rows);
            assert(forall|k: int| 0 <= k < rows ==> x02@[k] == seg_at(sy0, sx0, sy2, sx2, k));
            assert(forall|k: int| 0 <= k < rows
                ==> x012@[k] == composite_at(sx0, sy0, sx1, sy1, sx2, sy2, k));
            assert(forall|k: int| 0 <= k < rows ==> z02@[k] == zseg_at(sy0, sz0, sy2, sz2, k));
            assert(forall|k: int| 0 <= k < rows
                ==> z012@[k] == zcomposite_at(sy0, sz0, sy1, sz1, sy2, sz2, k));
        }

        let m: usize = x012.len() / 2;
        let dir_left: bool = x02[m] < x012[m];
        let (x_left, x_right): (Vec<i32>, Vec<i32>) = if dir_left {
            (x02, x012)
        } else {
            (x012, x02)
        };
        let (z_left, z_right): (Vec<i64>, Vec<i64>) = if dir_left {
            (z02, z012)
        } else {
            (z012, z02)
        };
        proof {
            assert(dir_left == left_is_direct(sx0, sy0, sx1, sy1, sx2, sy2));
        }

        let mut y: i64 = y0 as i64;
        while y <= y2 as i64
            invariant
                self.wf(),
                self.raster.width == old(self).raster.width,
                self.raster.height == old(self).raster.height,
                w == self.raster.width as int,
                h == self.raster.height as int,
                z_buffer@.len() == zb0.len(),
                zb0.len() == w * h,
                sy0 <= sy1 <= sy2,
                sy0 == y0 as int,
                sy2 == y2 as int,
                rows == sy2 - sy0 + 1,
                x_left@.len() == rows,
                x_right@.len() == rows,
                z_left@.len() == rows,
                z_right@.len() == rows,
                forall|k: int| 0 <= k < rows
                    ==> x_left@[k] == tri_left_at(sx0, sy0, sx1, sy1, sx2, sy2, k),
                forall|k: int| 0 <= k < rows
                    ==> x_right@[k] == tri_right_at(sx0, sy0, sx1, sy1, sx2, sy2, k),
                forall|k: int| 0 <= k < rows
                    ==> z_left@[k] == tri_left_z_at(sx0, sy0, sz0, sx1, sy1, sz1,
                        sx2, sy2, sz2, k),
                forall|k: int| 0 <= k < rows
                    ==> z_right@[k] == tri_right_z_at(sx0, sy0, sz0, sx1, sy1, sz1,
                        sx2, sy2, sz2, k),
                sy0 <= y <= sy2 + 1,
                zrows_from(w, h, self.raster.data@, z_buffer@,
                    sx0, sy0, sz0, sx1, sy1, sz1, sx2, sy2, sz2, y as int, color)
                    == zrows_from(w, h, data0, zb0,
                        sx0, sy0, sz0, sx1, sy1, sz1, sx2, sy2, sz2, sy0, color),
            decreases sy2 - y + 1,
        {
            let r: usize = (y - y0 as i64) as usize;
            let xl: i32 = x_left[r];
            let xr: i32 = x_right[r];
            let zl: i64 = z_left[r];
            let zr: i64 = z_right[r];
            let z_values: Vec<i64> = crate::cmath::fx_lerp_vec(xl as i64, zl, xr as i64, zr);
            let mut x: i64 = xl as i64;
            while x < xr as i64
                invariant
                    self.wf(),
                    self.raster.width == old(self).raster.width,
                    self.raster.height == old(self).raster.height,
                    w == self.raster.width as int,
                    h == self.raster.height as int,
                    z_buffer@.len() == zb0.len(),
                    zb0.len() == w * h,
                    sy0 <= y <= sy2,
                    sy2 <= i32::MAX,
                    xl as int <= x,
                    x <= xr as int || x == xl as int,
                    xl as int == tri_left_at(sx0, sy0, sx1, sy1, sx2, sy2, y - sy0),
                    xr as int == tri_right_at(sx0, sy0, sx1, sy1, sx2, sy2, y - sy0),
                    zl == tri_left_z_at(sx0, sy0, sz0, sx1, sy1, sz1, sx2, sy2, sz2, y - sy0),
                    zr == tri_right_z_at(sx0, sy0, sz0, sx1, sy1, sz1, sx2, sy2, sz2, y - sy0),
                    (xl as int) < (xr as int) ==> z_values@.len() == xr as int - xl as int + 1,
                    forall|j: int| 0 <= j < z_values@.len() && (xl as int) < (xr as int)
                        ==> z_values@[j] == crate::cmath::fx_lerp_at(
                            xl as int, zl as int, xr as int, zr as int, j),
                    zrows_from(w, h,
                        zrow_from(w, h, self.raster.data@, z_buffer@, x as int,
                            xl as int, xr as int, y as int, zl, zr, color).0,
                        zrow_from(w, h, self.raster.data@, z_buffer@, x as int,
                            xl as int, xr as int, y as int, zl, zr, color).1,
                        sx0, sy0, sz0, sx1, sy1, sz1, sx2, sy2, sz2, y as int + 1, color)
                        == zrows_from(w, h, data0, zb0,
                            sx0, sy0, sz0, sx1, sy1, sz1, sx2, sy2, sz2, sy0, color),
                decreases xr as int - x,
            {
                let zi: usize = (x - xl as i64) as usize;
                let zv: i64 = z_values[zi];
                if x >= 0 && y >= 0 && (x as usize) < self.raster.width
                    && (y as usize) < self.raster.height {
                    proof {
                        lemma_rowmajor_in_range(x as int, y as int, w, h);
                    }
                    let idx: usize = (x as usize) + self.raster.width * (y as usize);
                    if z_buffer[idx] < zv {
                        self.set_pixel(x as i32, y as i32, color);
                        z_buffer.set(idx, zv);
                    }
                }
                x = x + 1;
            }
            y = y + 1;
        }
    }
}

/// The rest of one shaded scanline: pixels `x..xr` at row `y`, each painted
/// with the base color scaled by the intensity interpolated between the
/// row's edge intensities.
pub open spec fn shade_row_from(
    w: int, h: int, data: Seq<u32>,
    x: int, xl: int, xr: int, y: int, fl: i64, fr: i64, c: u32,
) -> Seq<u32>
    decreases xr - x,
{
    if x >= xr {
        data
    } else {
        let f = crate::cmath::fx_lerp_at(xl, fl as int, xr, fr as int, x - xl) as i64;
        shade_row_from(
            w, h,
            set_pixel_spec(w, h, data, x, y, scale_color_spec(c, f as int) as u32),
            x + 1, xl, xr, y, fl, fr, c,
        )
    }
}

/// The remaining scanlines of a shaded triangle fill.
pub open spec fn shade_rows_from(
    w: int, h: int, data: Seq<u32>,
    x0: int, y0: int, f0: i64,
    x1: int, y1: int, f1: i64,
    x2: int, y2: int, f2: i64,
    y: int, c: u32,
) -> Seq<u32>
    decreases y2 - y + 1,
{
    if y > y2 {
        data
    } else {
        let k = y - y0;
        shade_rows_from(
            w, h,
            shade_row_from(
                w, h, data,
                tri_left_at(x0, y0, x1, y1, x2, y2, k),
                tri_left_at(x0, y0, x1, y1, x2, y2, k),
                tri_right_at(x0, y0, x1, y1, x2, y2, k),
                y,
                tri_left_z_at(x0, y0, f0, x1, y1, f1, x2, y2, f2, k),
                tri_right_z_at(x0, y0, f0, x1, y1, f1, x2, y2, f2, k),
                c,
            ),
            x0, y0, f0, x1, y1, f1, x2, y2, f2, y + 1, c,
        )
    }
}

/// What the shaded fill paints: the vertices sorted by `y`, then every
/// scanline filled with the base color scaled by the interpolated intensity.
pub open spec fn fill_shaded_triangle_spec(
    w: int, h: int, data: Seq<u32>,
    x0: int, y0: int, f0: i64,
    x1: int, y1: int, f1: i64,
    x2: int, y2: int, f2: i64,
    c: u32,
) -> Seq<u32> {
    let s = sort_by_y_z(x0, y0, f0, x1, y1, f1, x2, y2, f2);
    shade_rows_from(w, h, data, s.0, s.1, s.2, s.3, s.4, s.5, s.6, s.7, s.8, s.1, c)
}

impl CRen {
    /// The shaded triangle fill: the flat fill's scanline geometry, with a
    /// per-vertex fixed-point intensity interpolated along the edges and
    /// across each scanline, scaling the base color pixel by pixel.
    #[verifier::rlimit(60)]
    pub fn fill_shaded_triangle(
        &mut self,
        x0: i32, y0: i32, f0: i64,
        x1: i32, y1: i32, f1: i64,
        x2: i32, y2: i32, f2: i64,
        color: u32,
    )
        requires
            old(self).wf(),
        ensures
            final(self).same_frame(old(self)),
            final(self).raster.data@ == fill_shaded_triangle_spec(
                old(self).width_spec(), old(self).height_spec(), old(self).raster.data@,
                x0 as int, y0 as int, f0,
                x1 as int, y1 as int, f1,
                x2 as int, y2 as int, f2,
                color,
            ),
    {
        let ghost w = self.width_spec();
        let ghost h = self.height_spec();
        let ghost data0 = self.raster.data@;
        let ghost o = (x0 as int, y0 as int, f0, x1 as int, y1 as int, f1,
            x2 as int, y2 as int, f2);

        let mut x0 = x0;
        let mut y0 = y0;
        let mut f0 = f0;
        let mut x1 = x1;
        let mut y1 = y1;
        let mut f1 = f1;
        let mut x2 = x2;
        let mut y2 = y2;
        let mut f2 = f2;
        if y1 < y0 {
            let tx = x0;
            let ty = y0;
            let tf = f0;
            x0 = x1;
            y0 = y1;
            f0 = f1;
            x1 = tx;
            y1 = ty;
            f1 = tf;
        }
        if y2 < y0 {
            let tx = x0;
            let ty = y0;
            let tf = f0;
            x0 = x2;
            y0 = y2;
            f0 = f2;
            x2 = tx;
            y2 = ty;
            f2 = tf;
        }
        if y2 < y1 {
            let tx = x1;
            let ty = y1;
            let tf = f1;
            x1 = x2;
            y1 = y2;
            f1 = f2;
            x2 = tx;
            y2 = ty;
            f2 = tf;
        }
        proof {
            assert(sort_by_y_z(o.0, o.1, o.2, o.3, o.4, o.5, o.6, o.7, o.8)
                == (x0 as int, y0 as int, f0, x1 as int, y1 as int, f1,
                    x2 as int, y2 as int, f2));
        }
        let ghost sx0 = x0 as int;
        let ghost sy0 = y0 as int;
        let ghost sf0 = f0;
        let ghost sx1 = x1 as int;
        let ghost sy1 = y1 as int;
        let ghost sf1 = f1;
        let ghost sx2 = x2 as int;
        let ghost sy2 = y2 as int;
        let ghost sf2 = f2;

        let mut x01: Vec<i32> = crate::cmath::i32_lerp_vec(y0, x0, y1, x1);
        let mut f01: Vec<i64> = crate::cmath::fx_lerp_vec(y0 as i64, f0, y1 as i64, f1);
        let mut x12: Vec<i32> = crate::cmath::i32_lerp_vec(y1, x1, y2, x2);
        let mut f12: Vec<i64> = crate::cmath::fx_lerp_vec(y1 as i64, f1, y2 as i64, f2);
        let x02: Vec<i32> = crate::cmath::i32_lerp_vec(y0, x0, y2, x2);
        let f02: Vec<i64> = crate::cmath::fx_lerp_vec(y0 as i64, f0, y2 as i64, f2);
        x01.pop();
        f01.pop();
        x01.append(&mut x12);
        f01.append(&mut f12);
        let x012: Vec<i32> = x01;
        let f012: Vec<i64> = f01;
        let ghost rows = sy2 - sy0 + 1;
        proof {
            assert(x02@.len() == rows);
            assert(f02@.len() == rows);
            assert(x012@.len() == rows);
            assert(f012@.len() == rows);
            assert(forall|k: int| 0 <= k < rows ==> x02@[k] == seg_at(sy0, sx0, sy2, sx2, k));
            assert(forall|k: int| 0 <= k < rows
                ==> x012@[k] == composite_at(sx0, sy0, sx1, sy1, sx2, sy2, k));
            assert(forall|k: int| 0 <= k < rows ==> f02@[k] == zseg_at(sy0, sf0, sy2, sf2, k));
            assert(forall|k: int| 0 <= k < rows
                ==> f012@[k] == zcomposite_at(sy0, sf0, sy1, sf1, sy2, sf2, k));
        }

        let m: usize = x012.len() / 2;
        let dir_left: bool = x02[m] < x012[m];
        let (x_left, x_right): (Vec<i32>, Vec<i32>) = if dir_left {
            (x02, x012)
        } else {
            (x012, x02)
        };
        let (f_left, f_right): (Vec<i64>, Vec<i64>) = if dir_left {
            (f02, f012)
        } else {
            (f012, f02)
        };
        proof {
            assert(dir_left == left_is_direct(sx0, sy0, sx1, sy1, sx2, sy2));
        }

        let mut y: i64 = y0 as i64;
        while y <= y2 as i64
            invariant
                self.wf(),
                self.raster.width == old(self).raster.width,
                self.raster.height == old(self).raster.height,
                w == self.raster.width as int,
                h == self.raster.height as int,
                sy0 <= sy1 <= sy2,
                sy0 == y0 as int,
                sy2 == y2 as int,
                rows == sy2 - sy0 + 1,
                x_left@.len() == rows,
                x_right@.len() == rows,
                f_left@.len() == rows,
                f_right@.len() == rows,
                forall|k: int| 0 <= k < rows
                    ==> x_left@[k] == tri_left_at(sx0, sy0, sx1, sy1, sx2, sy2, k),
                forall|k: int| 0 <= k < rows
                    ==> x_right@[k] == tri_right_at(sx0, sy0, sx1, sy1, sx2, sy2, k),
                forall|k: int| 0 <= k < rows
                    ==> f_left@[k] == tri_left_z_at(sx0, sy0, sf0, sx1, sy1, sf1,
                        sx2, sy2, sf2, k),
                forall|k: int| 0 <= k < rows
                    ==> f_right@[k] == tri_right_z_at(sx0, sy0, sf0, sx1, sy1, sf1,
                        sx2, sy2, sf2, k),
                sy0 <= y <= sy2 + 1,
                shade_rows_from(w, h, self.raster.data@,
                    sx0, sy0, sf0, sx1, sy1, sf1, sx2, sy2, sf2, y as int, color)
                    == shade_rows_from(w, h, data0,
                        sx0, sy0, sf0, sx1, sy1, sf1, sx2, sy2, sf2, sy0, color),
            decreases sy2 - y + 1,
        {
            let r: usize = (y - y0 as i64) as usize;
            let xl: i32 = x_left[r];
            let xr: i32 = x_right[r];
            let fl: i64 = f_left[r];
            let fr: i64 = f_right[r];
            let f_values: Vec<i64> = crate::cmath::fx_lerp_vec(xl as i64, fl, xr as i64, fr);
            let mut x: i64 = xl as i64;
            while x < xr as i64
                invariant
                    self.wf(),
                    self.raster.width == old(self).raster.width,
                    self.raster.height == old(self).raster.height,
                    w == self.raster.width as int,
                    h == self.raster.height as int,
                    sy0 <= y <= sy2,
                    xl as int <= x,
                    x <= xr as int || x == xl as int,
                    xl as int == tri_left_at(sx0, sy0, sx1, sy1, sx2, sy2, y - sy0),
                    xr as int == tri_right_at(sx0, sy0, sx1, sy1, sx2, sy2, y - sy0),
                    fl == tri_left_z_at(sx0, sy0, sf0, sx1, sy1, sf1, sx2, sy2, sf2, y - sy0),
                    fr == tri_right_z_at(sx0, sy0, sf0, sx1, sy1, sf1, sx2, sy2, sf2, y - sy0),
                    (xl as int) < (xr as int) ==> f_values@.len() == xr as int - xl as int + 1,
                    forall|j: int| 0 <= j < f_values@.len() && (xl as int) < (xr as int)
                        ==> f_values@[j] == crate::cmath::fx_lerp_at(
                            xl as int, fl as int, xr as int, fr as int, j),
                    shade_rows_from(w, h,
                        shade_row_from(w, h, self.raster.data@, x as int,
                            xl as int, xr as int, y as int, fl, fr, color),
                        sx0, sy0, sf0, sx1, sy1, sf1, sx2, sy2, sf2, y as int + 1, color)
                        == shade_rows_from(w, h, data0,
                            sx0, sy0, sf0, sx1, sy1, sf1, sx2, sy2, sf2, sy0, color),
                decreases xr as int - x,
            {
                let fi: usize = (x - xl as i64) as usize;
                let fv: i64 = f_values[fi];
                let shaded: u32 = self.scale_color(color, fv);
                self.set_pixel_wide(x, y, shaded);
                x = x + 1;
            }
            y = y + 1;
        }
    }
}

/// The near and far plane distances of the projection, fixed-point: 1.0 and
/// 50.0.
pub const PROJ_NEAR: i64 = 65536;
pub const PROJ_FAR: i64 = 3276800;

/// The perspective projection matrix built from the sine of half the
/// horizontal field of view and the raster's aspect ratio: a standard
/// off-axis frustum with fixed near and far planes, mapping the near plane
/// to depth 1 and the far plane to depth -1 (larger depth is nearer).
pub open spec fn proj_matrix_spec(fov_half_sin: i64, aspect: i64) -> Matrix4x4 {
    let n = PROJ_NEAR;
    let f = PROJ_FAR;
    let r = fov_half_sin;
    let l = crate::fixed::fxn(r);
    let t = crate::fixed::fxd(r, aspect);
    let b = crate::fixed::fxn(t);
    Matrix4x4 {
        e11: crate::fixed::fxd(crate::fixed::fxa(n, n), crate::fixed::fxs(r, l)),
        e12: 0,
        e13: crate::fixed::fxd(crate::fixed::fxa(r, l), crate::fixed::fxs(r, l)),
        e14: 0,
        e21: 0,
        e22: crate::fixed::fxd(crate::fixed::fxa(n, n), crate::fixed::fxs(t, b)),
        e23: crate::fixed::fxd(crate::fixed::fxa(t, b), crate::fixed::fxs(t, b)),
        e24: 0,
        e31: 0,
        e32: 0,
        e33: crate::fixed::fxd(crate::fixed::fxn(crate::fixed::fxa(f, n)), crate::fixed::fxs(f, n)),
        e34: crate::fixed::fxd(crate::fixed::fxm(crate::fixed::fxa(f, f), n), crate::fixed::fxs(f, n)),
        e41: 0,
        e42: 0,
        e43: crate::fixed::FX_ONE,
        e44: 0,
    }
}

/// The view matrix of a camera pose: the rotation transposed (the inverse of
/// an orthonormal rotation), with the camera position rotated the same way
/// and negated in the last column.
pub open spec fn view_matrix_spec(t: crate::ctransform::CTransform) -> Matrix4x4 {
    let c3 = crate::cmatrix::transpose3_spec(
        crate::cmatrix::rot3_spec(t.rot.0, t.rot.1, t.rot.2),
    );
    let p = crate::cmatrix::apply3_spec(c3, t.pos);
    let c4 = crate::cmatrix::as4x4_spec(c3);
    Matrix4x4 {
        e14: crate::fixed::fxn(p.0),
        e24: crate::fixed::fxn(p.1),
        e34: crate::fixed::fxn(p.2),
        ..c4
    }
}

/// The viewport matrix: NDC coordinates scaled and shifted onto a `w` by `h`
/// raster, with `y` flipped so it grows downward.
pub open spec fn viewport_matrix_spec(w: usize, h: usize) -> Matrix4x4 {
    Matrix4x4 {
        e11: (w * 32768) as i64,
        e22: (-((h * 32768) as int)) as i64,
        e14: (w * 32768) as i64,
        e24: (h * 32768) as i64,
        ..crate::cmatrix::identity4_spec()
    }
}

/// A model's vertices carried to clip space: homogeneous with `w = 1`, then
/// transformed by the composed matrix.
pub open spec fn clip_verts_spec(mverts: Seq<(i64, i64, i64)>, m: Matrix4x4)
    -> Seq<(i64, i64, i64, i64)>
{
    Seq::new(mverts.len(), |i: int| crate::cmatrix::apply4_spec(
        m, (mverts[i].0, mverts[i].1, mverts[i].2, crate::fixed::FX_ONE),
    ))
}

/// The perspective divide of one clip-space vertex: every component divided
/// by `w`. A vertex with `w == 0` is degenerate; the division saturates and
/// rendering continues, never failing mid-frame.
pub open spec fn persp_div_spec(v: (i64, i64, i64, i64)) -> (i64, i64, i64, i64) {
    (
        crate::fixed::fxd(v.0, v.3),
        crate::fixed::fxd(v.1, v.3),
        crate::fixed::fxd(v.2, v.3),
        crate::fixed::fxd(v.3, v.3),
    )
}

/// A screen coordinate rounded to its pixel index: plus one half, truncated
/// toward zero, clamped to the addressable range.
pub open spec fn px_spec(c: i64) -> int {
    crate::fixed::clamp32(crate::fixed::tdiv(c as int + 32768, 65536))
}

/// The remaining triangles of one instance drawn through the depth-tested
/// fill, each over its screen-space vertices and stored color.
pub open spec fn draw_tris_from(
    w: int, h: int, data: Seq<u32>, zb: Seq<i64>,
    verts: Seq<(i64, i64, i64, i64)>, tris: Seq<crate::triangle::Triangle>, j: int,
) -> (Seq<u32>, Seq<i64>)
    decreases tris.len() - j,
{
    if j < 0 || j >= tris.len() {
        (data, zb)
    } else {
        let t = tris[j];
        let v0 = verts[t.i0 as int];
        let v1 = verts[t.i1 as int];
        let v2 = verts[t.i2 as int];
        let r = fill_triangle_z_spec(
            w, h, data, zb,
            px_spec(v0.0), px_spec(v0.1), v0.2,
            px_spec(v1.0), px_spec(v1.1), v1.2,
            px_spec(v2.0), px_spec(v2.1), v2.2,
            t.color,
        );
        draw_tris_from(w, h, r.0, r.1, verts, tris, j + 1)
    }
}

/// What rendering one instance adds to the frame: its pose composed with the
/// frame matrix, vertices carried to clip space, clipped, divided by `w`,
/// mapped to the viewport, and its surviving triangles drawn depth-tested.
/// An instance whose clip-space vertices leave the clipper's working range
/// is skipped whole, the non-fatal policy for degenerate geometry.
pub open spec fn render_instance_spec(
    w: usize, h: usize, data: Seq<u32>, zb: Seq<i64>,
    inst: crate::cmodel_instance::CModelInstance, a: Matrix4x4,
) -> (Seq<u32>, Seq<i64>) {
    let m = crate::cmatrix::mul4_spec(a, crate::ctransform::as_matrix_spec(inst.transform));
    let cv = clip_verts_spec(inst.model.vertices@, m);
    if !crate::cclip::verts_bounded(cv) {
        (data, zb)
    } else {
        let r = crate::cclip::clip_spec(cv, inst.model.triangles@);
        let ndc = Seq::new(r.0.len(), |i: int| persp_div_spec(r.0[i]));
        let vm = viewport_matrix_spec(w, h);
        let screen = Seq::new(ndc.len(), |i: int| crate::cmatrix::apply4_spec(vm, ndc[i]));
        draw_tris_from(w as int, h as int, data, zb, screen, r.1, 0)
    }
}

/// The remaining instances of a scene rendered in order.
pub open spec fn render_scene_from(
    w: usize, h: usize, data: Seq<u32>, zb: Seq<i64>,
    scene: Seq<crate::cmodel_instance::CModelInstance>, a: Matrix4x4, j: int,
) -> (Seq<u32>, Seq<i64>)
    decreases scene.len() - j,
{
    if j < 0 || j >= scene.len() {
        (data, zb)
    } else {
        let r = render_instance_spec(w, h, data, zb, scene[j], a);
        render_scene_from(w, h, r.0, r.1, scene, a, j + 1)
    }
}

/// What one whole frame renders: the projection and view matrices composed
/// once, the depth buffer reset to the "nothing drawn yet" sentinel, and
/// every instance rendered in scene order.
pub open spec fn render_scene_spec(
    w: usize, h: usize, data: Seq<u32>, zb: Seq<i64>,
    cam: crate::ccamera::CCamera,
    scene: Seq<crate::cmodel_instance::CModelInstance>,
) -> (Seq<u32>, Seq<i64>) {
    let aspect = crate::fixed::fxd((w * 65536) as i64, (h * 65536) as i64);
    let pm = proj_matrix_spec(cam.fov_half_sin, aspect);
    let vm = view_matrix_spec(cam.transform);
    let a = crate::cmatrix::mul4_spec(pm, vm);
    let zb_reset = Seq::new(zb.len(), |i: int| -65536i64);
    render_scene_from(w, h, data, zb_reset, scene, a, 0)
}

impl CRen {
    /// Renders one model instance into the frame; see `render_instance_spec`.
    fn render_instance(
        &mut self,
        z_buffer: &mut Vec<i64>,
        inst: &crate::cmodel_instance::CModelInstance,
        am: &Matrix4x4,
    )
        requires
            old(self).wf(),
            old(z_buffer)@.len() == old(self).raster.width * old(self).raster.height,
            inst.wf(),
            inst.model.triangles@.len() <= 0x0020_0000,
        ensures
            final(self).same_frame(old(self)),
            final(z_buffer)@.len() == old(z_buffer)@.len(),
            (final(self).raster.data@, final(z_buffer)@) == render_instance_spec(
                old(self).raster.width, old(self).raster.height,
                old(self).raster.data@, old(z_buffer)@, *inst, *am,
            ),
    {
        let ghost w = self.raster.width;
        let ghost h = self.raster.height;
        let ghost data0 = self.raster.data@;
        let ghost zb0 = z_buffer@;

        let bm: Matrix4x4 = inst.transform.asMatrix();
        let mm: Matrix4x4 = crate::cmatrix::matrix_4x4_mult(am, &bm);
        let ghost cv = clip_verts_spec(inst.model.vertices@, mm);

        let nverts: usize = inst.model.vertices.len();
        let mut vertices: Vec<(i64, i64, i64, i64)> = Vec::new();
        let mut vi: usize = 0;
        while vi < nverts
            invariant
                nverts == inst.model.vertices@.len(),
                cv == clip_verts_spec(inst.model.vertices@, mm),
                vi <= nverts,
                vertices@.len() == vi,
                forall|k: int| 0 <= k < vi ==> vertices@[k] == cv[k],
            decreases nverts - vi,
        {
            let mv: (i64, i64, i64) = inst.model.vertices[vi];
            let mut v4: (i64, i64, i64, i64) = (mv.0, mv.1, mv.2, crate::fixed::FX_ONE);
            mm.applyTo(&mut v4);
            vertices.push(v4);
            vi = vi + 1;
        }
        proof {
            assert(vertices@ =~= cv);
        }

        let ntris: usize = inst.model.triangles.len();
        let mut triangles: Vec<crate::triangle::Triangle> = Vec::new();
        let mut ti: usize = 0;
        while ti < ntris
            invariant
                ntris == inst.model.triangles@.len(),
                ti <= ntris,
                triangles@.len() == ti,
                forall|k: int| 0 <= k < ti ==> triangles@[k] == inst.model.triangles@[k],
            decreases ntris - ti,
        {
            let t: crate::triangle::Triangle = inst.model.triangles[ti];
            triangles.push(t);
            ti = ti + 1;
        }
        proof {
            assert(triangles@ =~= inst.model.triangles@);
        }

        let lim: i64 = crate::cclip::CLIP_MAX_COORD;
        let mut ok: bool = true;
        let mut vi2: usize = 0;
        while vi2 < nverts
            invariant
                nverts == vertices@.len(),
                vi2 <= nverts,
                ok == (forall|k: int| 0 <= k < vi2
                    ==> crate::cclip::v4_bounded(#[trigger] vertices@[k])),
                lim == crate::cclip::CLIP_MAX_COORD,
            decreases nverts - vi2,
        {
            let v: (i64, i64, i64, i64) = vertices[vi2];
            if !(v.0 >= -lim && v.0 <= lim && v.1 >= -lim && v.1 <= lim
                && v.2 >= -lim && v.2 <= lim && v.3 >= -lim && v.3 <= lim) {
                ok = false;
            }
            vi2 = vi2 + 1;
        }

        if !ok {
            return;
        }

        crate::cclip::Clipper::clip(&mut vertices, &mut triangles);
        let ghost clv = vertices@;
        let ghost clt = triangles@;

        let ghost ndc = Seq::new(clv.len(), |i: int| persp_div_spec(clv[i]));
        let vcount: usize = vertices.len();
        let mut vi3: usize = 0;
        while vi3 < vcount
            invariant
                vcount == vertices@.len(),
                vertices@.len() == clv.len(),
                ndc == Seq::new(clv.len(), |i: int| persp_div_spec(clv[i])),
                vi3 <= vcount,
                forall|k: int| 0 <= k < vi3 ==> vertices@[k] == ndc[k],
                forall|k: int| vi3 <= k < vcount ==> vertices@[k] == clv[k],
            decreases vcount - vi3,
        {
            let v: (i64, i64, i64, i64) = vertices[vi3];
            let nv: (i64, i64, i64, i64) = (
                crate::fixed::fx_div(v.0, v.3),
                crate::fixed::fx_div(v.1, v.3),
                crate::fixed::fx_div(v.2, v.3),
                crate::fixed::fx_div(v.3, v.3),
            );
            vertices.set(vi3, nv);
            vi3 = vi3 + 1;
        }

        let e11v: i64 = (self.raster.width as i64) * 32768;
        let e24v: i64 = (self.raster.height as i64) * 32768;
        let mut vm: Matrix4x4 = Matrix4x4::new();
        vm.e11 = e11v;
        vm.e22 = -e24v;
        vm.e14 = e11v;
        vm.e24 = e24v;
        proof {
            assert(vm == viewport_matrix_spec(w, h));
        }

        let ghost screen = Seq::new(ndc.len(), |i: int| crate::cmatrix::apply4_spec(vm, ndc[i]));
        let mut vi4: usize = 0;
        while vi4 < vcount
            invariant
                vcount == vertices@.len(),
                vertices@.len() == ndc.len(),
                screen == Seq::new(ndc.len(), |i: int| crate::cmatrix::apply4_spec(vm, ndc[i])),
                vi4 <= vcount,
                forall|k: int| 0 <= k < vi4 ==> vertices@[k] == screen[k],
                forall|k: int| vi4 <= k < vcount ==> vertices@[k] == ndc[k],
            decreases vcount - vi4,
        {
            let mut v: (i64, i64, i64, i64) = vertices[vi4];
            vm.applyTo(&mut v);
            vertices.set(vi4, v);
            vi4 = vi4 + 1;
        }
        proof {
            assert(vertices@ =~= screen);
        }

        let tcount: usize = triangles.len();
        let mut ti2: usize = 0;
        while ti2 < tcount
            invariant
                self.wf(),
                self.raster.width == old(self).raster.width,
                self.raster.height == old(self).raster.height,
                w == self.raster.width,
                h == self.raster.height,
                z_buffer@.len() == zb0.len(),
                zb0.len() == w * h,
                tcount == clt.len(),
                triangles@ == clt,
                vertices@ == screen,
                screen.len() == clv.len(),
                crate::cclip::tris_wf(clt, clv.len() as int),
                ti2 <= tcount,
                draw_tris_from(w as int, h as int, self.raster.data@, z_buffer@,
                    screen, clt, ti2 as int)
                    == draw_tris_from(w as int, h as int,
                        render_instance_spec(w, h, data0, zb0, *inst, *am).0,
                        render_instance_spec(w, h, data0, zb0, *inst, *am).1,
                        screen, clt, tcount as int),
            decreases tcount - ti2,
        {
            let t: crate::triangle::Triangle = triangles[ti2];
            let v0: (i64, i64, i64, i64) = vertices[t.i0];
            let v1: (i64, i64, i64, i64) = vertices[t.i1];
            let v2: (i64, i64, i64, i64) = vertices[t.i2];
            let x0: i32 = crate::fixed::fx_trunc_round_i32(v0.0);
            let y0: i32 = crate::fixed::fx_trunc_round_i32(v0.1);
            let z0: i64 = v0.2;
            let x1: i32 = crate::fixed::fx_trunc_round_i32(v1.0);
            let y1: i32 = crate::fixed::fx_trunc_round_i32(v1.1);
            let z1: i64 = v1.2;
            let x2: i32 = crate::fixed::fx_trunc_round_i32(v2.0);
            let y2: i32 = crate::fixed::fx_trunc_round_i32(v2.1);
            let z2: i64 = v2.2;
            self.fill_triangle_with_z_buffer(z_buffer, x0, y0, z0, x1, y1, z1, x2, y2, z2, t.color);
            ti2 = ti2 + 1;
        }
    }

    /// Renders every instance of the scene into this raster through the full
    /// perspective pipeline — model, view and projection transforms,
    /// homogeneous clipping, perspective divide, viewport mapping and the
    /// depth-tested fill — resetting the caller-owned depth buffer to the
    /// "nothing drawn yet" sentinel first.
    pub fn render_scene(
        &mut self,
        camera: &crate::ccamera::CCamera,
        scene: &Vec<crate::cmodel_instance::CModelInstance>,
        z_buffer: &mut Vec<i64>,
    )
        requires
            old(self).wf(),
            old(z_buffer)@.len() == old(self).raster.width * old(self).raster.height,
            forall|i: int| 0 <= i < scene@.len() ==> (#[trigger] scene@[i]).wf(),
            forall|i: int| 0 <= i < scene@.len()
                ==> (#[trigger] scene@[i]).model.triangles@.len() <= 0x0020_0000,
        ensures
            final(self).same_frame(old(self)),
            final(z_buffer)@.len() == old(z_buffer)@.len(),
            (final(self).raster.data@, final(z_buffer)@) == render_scene_spec(
                old(self).raster.width, old(self).raster.height,
                old(self).raster.data@, old(z_buffer)@, *camera, scene@,
            ),
    {
        let ghost w = self.raster.width;
        let ghost h = self.raster.height;
        let ghost data0 = self.raster.data@;
        let ghost zb0 = z_buffer@;

        let wfx: i64 = (self.raster.width as i64) * crate::fixed::FX_ONE;
        let hfx: i64 = (self.raster.height as i64) * crate::fixed::FX_ONE;
        let aspect: i64 = crate::fixed::fx_div(wfx, hfx);

        let n: i64 = PROJ_NEAR;
        let f: i64 = PROJ_FAR;
        let r: i64 = camera.fov_half_sin;
        let l: i64 = crate::fixed::sat_neg(r);
        let t: i64 = crate::fixed::fx_div(r, aspect);
        let b: i64 = crate::fixed::sat_neg(t);
        let pm: Matrix4x4 = Matrix4x4 {
            e11: crate::fixed::fx_div(crate::fixed::sat_add(n, n), crate::fixed::sat_sub(r, l)),
            e12: 0,
            e13: crate::fixed::fx_div(crate::fixed::sat_add(r, l), crate::fixed::sat_sub(r, l)),
            e14: 0,
            e21: 0,
            e22: crate::fixed::fx_div(crate::fixed::sat_add(n, n), crate::fixed::sat_sub(t, b)),
            e23: crate::fixed::fx_div(crate::fixed::sat_add(t, b), crate::fixed::sat_sub(t, b)),
            e24: 0,
            e31: 0,
            e32: 0,
            e33: crate::fixed::fx_div(
                crate::fixed::sat_neg(crate::fixed::sat_add(f, n)),
                crate::fixed::sat_sub(f, n),
            ),
            e34: crate::fixed::fx_div(
                crate::fixed::fx_mul(crate::fixed::sat_add(f, f), n),
                crate::fixed::sat_sub(f, n),
            ),
            e41: 0,
            e42: 0,
            e43: crate::fixed::FX_ONE,
            e44: 0,
        };
        proof {
            assert(pm == proj_matrix_spec(camera.fov_half_sin, aspect));
        }

        let mut c3: crate::cmatrix::Matrix3x3 = crate::cmatrix::Matrix3x3::new_rot(
            camera.transform.rot.0,
            camera.transform.rot.1,
            camera.transform.rot.2,
        );
        c3.transpose();
        let mut c4: Matrix4x4 = c3.as4x4();
        let mut tv: (i64, i64, i64) = camera.transform.pos;
        c3.applyTo(&mut tv);
        c4.e14 = crate::fixed::sat_neg(tv.0);
        c4.e24 = crate::fixed::sat_neg(tv.1);
        c4.e34 = crate::fixed::sat_neg(tv.2);
        proof {
            assert(c4 == view_matrix_spec(camera.transform));
        }

        let am: Matrix4x4 = crate::cmatrix::matrix_4x4_mult(&pm, &c4);

        let zlen: usize = z_buffer.len();
        let mut i: usize = 0;
        while i < zlen
            invariant
                zlen == z_buffer@.len(),
                i <= zlen,
                forall|k: int| 0 <= k < i ==> z_buffer@[k] == -65536i64,
            decreases zlen - i,
        {
            z_buffer.set(i, -65536);
            i = i + 1;
        }
        proof {
            assert(z_buffer@ =~= Seq::new(zb0.len(), |k: int| -65536i64));
        }
        let ghost zb1 = z_buffer@;

        let count: usize = scene.len();
        let mut si: usize = 0;
        while si < count
            invariant
                self.wf(),
                self.raster.width == old(self).raster.width,
                self.raster.height == old(self).raster.height,
                w == self.raster.width,
                h == self.raster.height,
                z_buffer@.len() == zb1.len(),
                zb1.len() == w * h,
                count == scene@.len(),
                forall|k: int| 0 <= k < scene@.len() ==> (#[trigger] scene@[k]).wf(),
                forall|k: int| 0 <= k < scene@.len()
                    ==> (#[trigger] scene@[k]).model.triangles@.len() <= 0x0020_0000,
                si <= count,
                render_scene_from(w, h, self.raster.data@, z_buffer@, scene@, am, si as int)
                    == render_scene_from(w, h, data0, zb1, scene@, am, 0),
            decreases count - si,
        {
            self.render_instance(z_buffer, &scene[si], &am);
            si = si + 1;
        }
    }
}

/// The depth test resolves occlusion independently of draw order: at any
/// pixel, writing a nearer fragment and a strictly farther one in either
/// order leaves the same color and the same recorded depth — the nearer
/// fragment's wherever it wins the test.
pub proof fn lemma_zpix_order_independent(
    w: int, h: int, data: Seq<u32>, zb: Seq<i64>,
    x: int, y: int,
    c_near: u32, z_near: i64, c_far: u32, z_far: i64,
)
    requires
        z_far < z_near,
        0 <= x < w,
        0 <= y < h,
        data.len() == w * h,
        zb.len() == w * h,
    ensures
        ({
            let a = zpix_spec(w, h, data, zb, x, y, c_far, z_far);
            zpix_spec(w, h, a.0, a.1, x, y, c_near, z_near)
        }) == ({
            let b = zpix_spec(w, h, data, zb, x, y, c_near, z_near);
            zpix_spec(w, h, b.0, b.1, x, y, c_far, z_far)
        }),
{
    crate::craster::lemma_rowmajor_in_range(x, y, w, h);
    let i = x + w * y;
    let a = zpix_spec(w, h, data, zb, x, y, c_far, z_far);
    let ab = zpix_spec(w, h, a.0, a.1, x, y, c_near, z_near);
    let b = zpix_spec(w, h, data, zb, x, y, c_near, z_near);
    let ba = zpix_spec(w, h, b.0, b.1, x, y, c_far, z_far);
    if zb[i] < z_far {
        assert(ab.0 =~= ba.0);
        assert(ab.1 =~= ba.1);
    } else if zb[i] < z_near {
        assert(ab.0 =~= ba.0);
        assert(ab.1 =~= ba.1);
    } else {
        assert(ab.0 =~= ba.0);
        assert(ab.1 =~= ba.1);
    }
}

/// The pixels a line marks do not depend on which endpoint is given first.
pub proof fn lemma_line_symmetric(
    w: int, h: int, data: Seq<u32>,
    x0: int, y0: int, x1: int, y1: int, c: u32,
)
    ensures
        line_spec(w, h, data, x0, y0, x1, y1, c) == line_spec(w, h, data, x1, y1, x0, y0, c),
{
}

} // verus!
