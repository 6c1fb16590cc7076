//! A plain description of a display surface: its size and the pixel buffer
//! handed to whatever presents it. Creating and driving an actual window is
//! left to the embedding program.

use vstd::prelude::*;

verus! {

pub struct Window {
    pub width: u64,
    pub height: u64,
    pub pixels: Vec<u32>,
}

impl Window {
    pub fn new_window(w: u64, h: u64) -> (win: Window)
        requires
            w * h <= usize::MAX,
        ensures
            win.width == w,
            win.height == h,
            win.pixels@.len() == w * h,
            forall|i: int| 0 <= i < win.pixels@.len() ==> win.pixels@[i] == 0u32,
    {
        new(w, h)
    }
}

pub fn new(w: u64, h: u64) -> (win: Window)
    requires
        w * h <= usize::MAX,
    ensures
        win.width == w,
        win.height == h,
        win.pixels@.len() == w * h,
        forall|i: int| 0 <= i < win.pixels@.len() ==> win.pixels@[i] == 0u32,
{
    let len: usize = (w * h) as usize;
    let mut pixels: Vec<u32> = Vec::new();
    let mut i: usize = 0;
    while i < len
        invariant
            i <= len,
            pixels@.len() == i,
            forall|j: int| 0 <= j < i ==> pixels@[j] == 0u32,
        decreases len - i,
    {
        pixels.push(0);
        i = i + 1;
    }
    Window { width: w, height: h, pixels }
}

} // verus!
