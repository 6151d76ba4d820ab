//! The display driver facade: one framebuffer, a selected-screen index and
//! a fixed wire variant.
//!
//! This type is the protocol engine behind a dual-panel controller. It owns
//! the pixel grid, routes drawing through the codec, and produces the exact
//! transfer frames a session must write. The blocking USB transport that
//! carries the frames — device discovery, interface claiming and bulk
//! writes — lives outside this crate: a host session constructs the driver,
//! writes the frames of [`NiDisplay::reset_frames`] at start-up and at
//! teardown, and writes the frame of [`NiDisplay::frame`] on every flush.

use vstd::prelude::*;

use crate::codec::pack;
use crate::codec::spec_pack;
use crate::codec::Color;
use crate::framebuffer::spec_put;
use crate::framebuffer::FrameBuffer;
use crate::framebuffer::DISPLAY_HEIGHT;
use crate::framebuffer::DISPLAY_WIDTH;
use crate::framebuffer::PIXEL_COUNT;
use crate::framer::encode;
use crate::framer::spec_frame;
use crate::framer::PayloadVariant;
use crate::framer::FRAME_LEN;

verus! {

/// The buffer contents after drawing a sequence of `(x, y, color)` pixels
/// in order: each in-range point is packed and written, each out-of-range
/// point is dropped.
pub open spec fn spec_draw(s: Seq<u16>, ps: Seq<(i32, i32, Color)>) -> Seq<u16>
    decreases ps.len(),
{
    if ps.len() == 0 {
        s
    } else {
        spec_draw(spec_put(s, ps[0].0 as int, ps[0].1 as int, spec_pack(ps[0].2)), ps.drop_first())
    }
}

/// Clearing law: after a `clear(c)`, every pixel the raw view exposes is
/// the packed value of `c`.
pub proof fn lemma_clear_fills_with_pack(c: Color, i: int)
    requires
        0 <= i < PIXEL_COUNT,
    ensures
        Seq::new(PIXEL_COUNT as nat, |j: int| spec_pack(c))[i] == spec_pack(c),
{
}

/// Reset law: the frames of [`NiDisplay::reset_frames`] are exactly the
/// frames of a buffer whose every pixel is black, packed.
pub proof fn lemma_reset_frames_are_black(screen_id: u8, v: PayloadVariant)
    ensures
        spec_frame(Seq::new(PIXEL_COUNT as nat, |i: int| 0u16), screen_id, v) == spec_frame(
            Seq::new(
                PIXEL_COUNT as nat,
                |i: int| spec_pack(Color { r: 0u8, g: 0u8, b: 0u8 }),
            ),
            screen_id,
            v,
        ),
{
    crate::codec::lemma_black_packs_to_zero();
    assert(Seq::new(PIXEL_COUNT as nat, |i: int| 0u16) =~= Seq::new(
        PIXEL_COUNT as nat,
        |i: int| spec_pack(Color { r: 0u8, g: 0u8, b: 0u8 }),
    ));
}

/// The display protocol engine: framebuffer, screen selector and wire
/// variant.
pub struct NiDisplay {
    frame_buffer: FrameBuffer,
    selected: u8,
    variant: PayloadVariant,
}

impl View for NiDisplay {
    type V = Seq<u16>;

    closed spec fn view(&self) -> Seq<u16> {
        self.frame_buffer@
    }
}

impl NiDisplay {
    /// Well-formed: a full-size buffer and a selector that names one of the
    /// two panels.
    pub closed spec fn wf(self) -> bool {
        &&& self.frame_buffer.wf()
        &&& (self.screen() == 0 || self.screen() == 1)
    }

    /// The screen the next frame is routed to.
    pub closed spec fn screen(self) -> u8 {
        self.selected
    }

    /// The wire variant fixed at construction.
    pub closed spec fn wire_variant(self) -> PayloadVariant {
        self.variant
    }

    /// Builds the engine with an all-black buffer and screen 0 selected.
    /// The caller owning the transport must then write both frames of
    /// [`NiDisplay::reset_frames`] so the panels start black.
    pub fn new(variant: PayloadVariant) -> (d: NiDisplay)
        ensures
            d.wf(),
            d@ == Seq::new(PIXEL_COUNT as nat, |i: int| 0u16),
            d.screen() == 0,
            d.wire_variant() == variant,
    {
        NiDisplay { frame_buffer: FrameBuffer::new(), selected: 0, variant }
    }

    /// Selects the panel the next flush targets: 0 stays 0, anything else
    /// is clamped to 1. No I/O, and the buffer is untouched.
    pub fn select_display(&mut self, id: u8)
        requires
            old(self).wf(),
        ensures
            final(self).wf(),
            final(self).screen() == (if id == 0 { 0u8 } else { 1u8 }),
            final(self)@ == old(self)@,
            final(self).wire_variant() == old(self).wire_variant(),
    {
        if id == 0 {
            self.selected = 0;
        } else {
            self.selected = 1;
        }
    }

    /// Packs `c` and writes it at `(x, y)`; out-of-range points (negative
    /// included) are dropped silently. Never fails.
    pub fn draw_pixel(&mut self, x: i32, y: i32, c: Color)
        requires
            old(self).wf(),
        ensures
            final(self).wf(),
            final(self)@ == spec_put(old(self)@, x as int, y as int, spec_pack(c)),
            final(self).screen() == old(self).screen(),
            final(self).wire_variant() == old(self).wire_variant(),
    {
        if 0 <= x && x < DISPLAY_WIDTH as i32 && 0 <= y && y < DISPLAY_HEIGHT as i32 {
            let p = pack(c);
            self.frame_buffer.set_pixel(x as usize, y as usize, p);
        }
    }

    /// Draws a sequence of `(x, y, color)` pixels in order, each through
    /// [`NiDisplay::draw_pixel`]. Never fails.
    pub fn draw_iter(&mut self, pixels: &Vec<(i32, i32, Color)>)
        requires
            old(self).wf(),
        ensures
            final(self).wf(),
            final(self)@ == spec_draw(old(self)@, pixels@),
            final(self).screen() == old(self).screen(),
            final(self).wire_variant() == old(self).wire_variant(),
    {
        let n = pixels.len();
        proof {
            assert(pixels@.subrange(0, n as int) =~= pixels@);
        }
        let mut i: usize = 0;
        while i < n
            invariant
                old(self).wf(),
                self.wf(),
                i <= n,
                n == pixels@.len(),
                self.screen() == old(self).screen(),
                self.wire_variant() == old(self).wire_variant(),
                spec_draw(old(self)@, pixels@) == spec_draw(
                    self@,
                    pixels@.subrange(i as int, n as int),
                ),
            decreases n - i,
        {
            let (x, y, c) = pixels[i];
            let ghost pre = self@;
            self.draw_pixel(x, y, c);
            proof {
                let rest = pixels@.subrange(i as int, n as int);
                assert(rest[0] == pixels@[i as int]);
                assert(rest.drop_first() =~= pixels@.subrange(i as int + 1, n as int));
                assert(spec_draw(pre, rest) == spec_draw(
                    self@,
                    pixels@.subrange(i as int + 1, n as int),
                ));
            }
            i = i + 1;
        }
        proof {
            assert(pixels@.subrange(n as int, n as int) =~= Seq::<(i32, i32, Color)>::empty());
        }
    }

    /// Fills the whole buffer with `c` packed; always succeeds.
    pub fn clear(&mut self, c: Color)
        requires
            old(self).wf(),
        ensures
            final(self).wf(),
            final(self)@ == Seq::new(PIXEL_COUNT as nat, |i: int| spec_pack(c)),
            final(self).screen() == old(self).screen(),
            final(self).wire_variant() == old(self).wire_variant(),
    {
        let p = pack(c);
        self.frame_buffer.clear(p);
    }

    /// The buffer as a row-major sequence of packed pixels.
    pub fn raw_view(&self) -> (r: &Vec<u16>)
        ensures
            r@ == self@,
    {
        self.frame_buffer.raw_view()
    }

    /// The transfer frame a flush must write for the current buffer and
    /// selector: byte 2 of its header equals the selected screen, and the
    /// payload carries the buffer in the fixed wire variant.
    pub fn frame(&self) -> (f: Vec<u8>)
        requires
            self.wf(),
        ensures
            f@ == spec_frame(self@, self.screen(), self.wire_variant()),
            f@.len() == FRAME_LEN,
            f@[2] == self.screen(),
    {
        encode(&self.frame_buffer, self.selected, self.variant)
    }

    /// The reset-to-black sequence run at construction and at teardown:
    /// clears the buffer and returns the two frames that drive screen 0 and
    /// screen 1 to black, in that order. The caller must write both; screen
    /// 1 stays selected afterwards, so a caller must select a screen before
    /// drawing again.
    pub fn reset_frames(&mut self) -> (frames: (Vec<u8>, Vec<u8>))
        requires
            old(self).wf(),
        ensures
            final(self).wf(),
            final(self)@ == Seq::new(PIXEL_COUNT as nat, |i: int| 0u16),
            final(self).screen() == 1,
            final(self).wire_variant() == old(self).wire_variant(),
            frames.0@ == spec_frame(
                Seq::new(PIXEL_COUNT as nat, |i: int| 0u16),
                0,
                old(self).wire_variant(),
            ),
            frames.1@ == spec_frame(
                Seq::new(PIXEL_COUNT as nat, |i: int| 0u16),
                1,
                old(self).wire_variant(),
            ),
    {
        self.select_display(0);
        self.clear(Color::black());
        let f0 = self.frame();

        self.select_display(1);
        self.clear(Color::black());
        let f1 = self.frame();

        (f0, f1)
    }

    /// The fixed panel dimensions, `(width, height)`, for buffer-relative
    /// layout by drawing callers.
    pub fn size(&self) -> (s: (u32, u32))
        ensures
            s.0 == DISPLAY_WIDTH as u32,
            s.1 == DISPLAY_HEIGHT as u32,
    {
        (DISPLAY_WIDTH as u32, DISPLAY_HEIGHT as u32)
    }

    /// Runtime check of the driver invariant, so that unverified callers
    /// can guard the contracts of the other methods before calling them.
    pub fn is_well_formed(&self) -> (b: bool)
        ensures
            b == self.wf(),
    {
        self.frame_buffer.raw_view().len() == PIXEL_COUNT && (self.selected == 0
            || self.selected == 1)
    }

    /// The currently selected screen, 0 or 1.
    pub fn selected_screen(&self) -> (id: u8)
        ensures
            id == self.screen(),
    {
        self.selected
    }
}

} // verus!
