//! The in-memory pixel grid for one panel.
//!
//! A framebuffer is a fixed-size, row-major grid of `DISPLAY_WIDTH x
//! DISPLAY_HEIGHT` packed 16-bit pixels. Out-of-bounds writes are defined
//! no-ops: the buffer never resizes, wraps, or panics.

use vstd::prelude::*;

verus! {

/// Width of one panel in pixels.
pub const DISPLAY_WIDTH: usize = 480;

/// Height of one panel in pixels.
pub const DISPLAY_HEIGHT: usize = 272;

/// Number of pixels in one full frame.
pub const PIXEL_COUNT: usize = DISPLAY_WIDTH * DISPLAY_HEIGHT;

/// The buffer contents after a write at `(x, y)`: the pixel at row-major
/// index `y * DISPLAY_WIDTH + x` is replaced when the coordinates are in
/// range, and nothing changes when they are not.
pub open spec fn spec_put(s: Seq<u16>, x: int, y: int, p: u16) -> Seq<u16> {
    if 0 <= x < DISPLAY_WIDTH && 0 <= y < DISPLAY_HEIGHT {
        s.update(y * (DISPLAY_WIDTH as int) + x, p)
    } else {
        s
    }
}

/// A full-screen grid of packed pixels, row-major, exactly `PIXEL_COUNT`
/// entries for the whole life of the value.
pub struct FrameBuffer {
    data: Vec<u16>,
}

impl View for FrameBuffer {
    type V = Seq<u16>;

    closed spec fn view(&self) -> Seq<u16> {
        self.data@
    }
}

impl FrameBuffer {
    /// A framebuffer is well formed when it holds exactly one pixel per
    /// grid cell.
    pub open spec fn wf(self) -> bool {
        self@.len() == PIXEL_COUNT
    }

    /// Allocates the grid once, filled with the all-zero pixel.
    pub fn new() -> (fb: FrameBuffer)
        ensures
            fb.wf(),
            fb@ == Seq::new(PIXEL_COUNT as nat, |i: int| 0u16),
    {
        let mut data: Vec<u16> = Vec::new();
        while data.len() < PIXEL_COUNT
            invariant
                data@.len() <= PIXEL_COUNT,
                forall|i: int| 0 <= i < data@.len() ==> data@[i] == 0u16,
            decreases PIXEL_COUNT - data@.len(),
        {
            data.push(0u16);
        }
        let fb = FrameBuffer { data };
        proof {
            assert(fb@ =~= Seq::new(PIXEL_COUNT as nat, |i: int| 0u16));
        }
        fb
    }

    /// Writes one pixel if `(x, y)` is inside the grid; out-of-range
    /// coordinates are dropped silently.
    pub fn set_pixel(&mut self, x: usize, y: usize, p: u16)
        requires
            old(self).wf(),
        ensures
            final(self).wf(),
            final(self)@ == spec_put(old(self)@, x as int, y as int, p),
    {
        if x < DISPLAY_WIDTH && y < DISPLAY_HEIGHT {
            let i = y * DISPLAY_WIDTH + x;
            self.data[i] = p;
        }
    }

    /// Reads the pixel at in-range coordinates `(x, y)`.
    pub fn get_pixel(&self, x: usize, y: usize) -> (p: u16)
        requires
            self.wf(),
            x < DISPLAY_WIDTH,
            y < DISPLAY_HEIGHT,
        ensures
            p == self@[y * (DISPLAY_WIDTH as int) + x],
    {
        self.data[y * DISPLAY_WIDTH + x]
    }

    /// Fills every cell with `p`; always succeeds.
    pub fn clear(&mut self, p: u16)
        requires
            old(self).wf(),
        ensures
            final(self).wf(),
            final(self)@ == Seq::new(PIXEL_COUNT as nat, |i: int| p),
    {
        let mut i: usize = 0;
        while i < PIXEL_COUNT
            invariant
                old(self).wf(),
                self.wf(),
                i <= PIXEL_COUNT,
                forall|j: int| 0 <= j < i ==> self@[j] == p,
            decreases PIXEL_COUNT - i,
        {
            self.data[i] = p;
            i = i + 1;
        }
        proof {
            assert(self@ =~= Seq::new(PIXEL_COUNT as nat, |i: int| p));
        }
    }

    /// The buffer as a row-major sequence of packed pixels, for framing.
    pub fn raw_view(&self) -> (r: &Vec<u16>)
        ensures
            r@ == self@,
    {
        &self.data
    }
}

/// Writing an in-range pixel and reading it back yields the written value;
/// a write at any out-of-range coordinate leaves the buffer unchanged.
pub proof fn lemma_set_pixel_read_back(s: Seq<u16>, x: int, y: int, p: u16)
    requires
        s.len() == PIXEL_COUNT,
    ensures
        0 <= x < DISPLAY_WIDTH && 0 <= y < DISPLAY_HEIGHT ==> {
            &&& spec_put(s, x, y, p).len() == s.len()
            &&& spec_put(s, x, y, p)[y * (DISPLAY_WIDTH as int) + x] == p
        },
        !(0 <= x < DISPLAY_WIDTH && 0 <= y < DISPLAY_HEIGHT) ==> spec_put(s, x, y, p) == s,
{
}

} // verus!
