//! Transfer framing: serializes a framebuffer plus protocol header, command
//! and footer into the exact byte sequence one flush sends for one screen.
//!
//! One frame is `HEADER (16 bytes, byte 2 = screen id) || COMMAND (4 bytes,
//! fixed) || PAYLOAD (PIXEL_COUNT * 2 bytes) || FOOTER (8 bytes, fixed)`.
//! The command encodes the protocol constant `PIXEL_COUNT / 2`, tied to this
//! panel resolution, and is not recomputed per call.
//!
//! Two wire variants exist across hardware revisions, chosen once at
//! construction and never inferred:
//! - [`PayloadVariant::Masked`]: pixels serialized little-endian (low byte
//!   first), each payload byte XORed with a 4-byte repeating key indexed by
//!   the byte's payload offset modulo 4;
//! - [`PayloadVariant::Swapped`]: pixels serialized with the byte order
//!   swapped per pixel (high byte first), unmasked.

use vstd::prelude::*;

use crate::framebuffer::FrameBuffer;
use crate::framebuffer::DISPLAY_HEIGHT;
use crate::framebuffer::DISPLAY_WIDTH;
use crate::framebuffer::PIXEL_COUNT;

verus! {

/// Total length in bytes of one transfer frame.
pub const FRAME_LEN: usize = 16 + 4 + DISPLAY_WIDTH * DISPLAY_HEIGHT * 2 + 8;

/// Byte length of the pixel payload alone.
pub const PAYLOAD_LEN: usize = DISPLAY_WIDTH * DISPLAY_HEIGHT * 2;

/// How pixel bytes are put on the wire, fixed per hardware revision at
/// construction time.
#[derive(Clone, Copy, Debug)]
pub enum PayloadVariant {
    /// Little-endian pixel bytes, each XORed with `key[offset % 4]` where
    /// `offset` is the byte's position within the payload.
    Masked { key: [u8; 4] },
    /// Byte order swapped per pixel (high byte before low byte), unmasked.
    Swapped,
}

/// The 16 header bytes: fixed protocol constants except byte 2, which
/// routes the frame to the selected screen.
pub open spec fn spec_header(screen_id: u8) -> Seq<u8> {
    seq![
        0x84u8, 0x00u8, screen_id, 0x60u8,
        0x00u8, 0x00u8, 0x00u8, 0x00u8,
        0x00u8, 0x00u8, 0x00u8, 0x00u8,
        0x01u8, 0xe0u8, 0x01u8, 0x10u8,
    ]
}

/// The 4 fixed command bytes, encoding the protocol's pixel-count constant.
pub open spec fn spec_command() -> Seq<u8> {
    seq![0x00u8, 0x00u8, 0xffu8, 0x00u8]
}

/// The 8 fixed footer bytes.
pub open spec fn spec_footer() -> Seq<u8> {
    seq![0x03u8, 0x00u8, 0x00u8, 0x00u8, 0x40u8, 0x00u8, 0x00u8, 0x00u8]
}

/// The low byte of a packed pixel.
pub open spec fn spec_lo(p: u16) -> u8 {
    (p & 0xff) as u8
}

/// The high byte of a packed pixel.
pub open spec fn spec_hi(p: u16) -> u8 {
    (p >> 8) as u8
}

/// Payload byte at payload offset `j` for the given pixels and variant.
pub open spec fn spec_payload_byte(pixels: Seq<u16>, v: PayloadVariant, j: int) -> u8 {
    let p = pixels[j / 2];
    match v {
        PayloadVariant::Masked { key } => {
            let raw = if j % 2 == 0 {
                spec_lo(p)
            } else {
                spec_hi(p)
            };
            raw ^ key[j % 4]
        },
        PayloadVariant::Swapped => if j % 2 == 0 {
            spec_hi(p)
        } else {
            spec_lo(p)
        },
    }
}

/// The whole payload: two bytes per pixel, row-major, row stride exactly
/// `DISPLAY_WIDTH * 2` bytes, no padding.
pub open spec fn spec_payload(pixels: Seq<u16>, v: PayloadVariant) -> Seq<u8> {
    Seq::new((pixels.len() * 2) as nat, |j: int| spec_payload_byte(pixels, v, j))
}

/// The full transfer frame for one screen.
pub open spec fn spec_frame(pixels: Seq<u16>, screen_id: u8, v: PayloadVariant) -> Seq<u8> {
    spec_header(screen_id) + spec_command() + spec_payload(pixels, v) + spec_footer()
}

/// Serializes the buffer and the selected screen into one transfer frame.
pub fn encode(fb: &FrameBuffer, screen_id: u8, variant: PayloadVariant) -> (frame: Vec<u8>)
    requires
        fb.wf(),
        screen_id == 0 || screen_id == 1,
    ensures
        frame@ == spec_frame(fb@, screen_id, variant),
        frame@.len() == FRAME_LEN,
        frame@[2] == screen_id,
{
    let mut frame: Vec<u8> = Vec::with_capacity(FRAME_LEN);

    // Header: fixed bytes, except byte 2 = the selected screen.
    frame.push(0x84);
    frame.push(0x00);
    frame.push(screen_id);
    frame.push(0x60);
    frame.push(0x00);
    frame.push(0x00);
    frame.push(0x00);
    frame.push(0x00);
    frame.push(0x00);
    frame.push(0x00);
    frame.push(0x00);
    frame.push(0x00);
    frame.push(0x01);
    frame.push(0xe0);
    frame.push(0x01);
    frame.push(0x10);

    // Command: the fixed pixel-count constant.
    frame.push(0x00);
    frame.push(0x00);
    frame.push(0xff);
    frame.push(0x00);

    proof {
        assert(frame@ =~= spec_header(screen_id) + spec_command());
    }

    let pixels = fb.raw_view();
    let ghost prefix: Seq<u8> = spec_header(screen_id) + spec_command();
    let mut i: usize = 0;
    while i < PIXEL_COUNT
        invariant
            fb.wf(),
            pixels@ == fb@,
            i <= PIXEL_COUNT,
            frame@.len() == 20 + 2 * i,
            prefix == spec_header(screen_id) + spec_command(),
            frame@ =~= prefix + spec_payload(fb@, variant).subrange(0, 2 * i as int),
        decreases PIXEL_COUNT - i,
    {
        let p = pixels[i];
        let lo = (p & 0xff) as u8;
        let hi = (p >> 8) as u8;
        match variant {
            PayloadVariant::Masked { key } => {
                let j: usize = 2 * i;
                frame.push(lo ^ key[j % 4]);
                frame.push(hi ^ key[(j + 1) % 4]);
            },
            PayloadVariant::Swapped => {
                frame.push(hi);
                frame.push(lo);
            },
        }
        proof {
            assert(spec_payload(fb@, variant)[2 * i as int] == spec_payload_byte(
                fb@,
                variant,
                2 * i as int,
            ));
            assert((2 * i as int) / 2 == i as int);
            assert((2 * i as int + 1) / 2 == i as int);
            assert(frame@ =~= prefix + spec_payload(fb@, variant).subrange(
                0,
                2 * (i + 1) as int,
            ));
        }
        i = i + 1;
    }

    proof {
        assert(spec_payload(fb@, variant).subrange(0, 2 * (PIXEL_COUNT as int)) =~= spec_payload(
            fb@,
            variant,
        ));
    }

    // Footer: fixed bytes.
    frame.push(0x03);
    frame.push(0x00);
    frame.push(0x00);
    frame.push(0x00);
    frame.push(0x40);
    frame.push(0x00);
    frame.push(0x00);
    frame.push(0x00);

    proof {
        assert(frame@ =~= spec_frame(fb@, screen_id, variant));
    }

    frame
}

/// Frame layout law: for any buffer contents, the frame has exactly
/// `FRAME_LEN` bytes; byte 2 equals the screen id; and the header, command
/// and footer regions hold the fixed protocol constants, independent of the
/// pixels.
pub proof fn lemma_frame_layout(pixels: Seq<u16>, screen_id: u8, v: PayloadVariant)
    requires
        pixels.len() == PIXEL_COUNT,
    ensures
        spec_frame(pixels, screen_id, v).len() == FRAME_LEN,
        spec_frame(pixels, screen_id, v)[2] == screen_id,
        spec_frame(pixels, screen_id, v).subrange(0, 16) == spec_header(screen_id),
        spec_frame(pixels, screen_id, v).subrange(16, 20) == spec_command(),
        spec_frame(pixels, screen_id, v).subrange(20, 20 + PAYLOAD_LEN as int) == spec_payload(
            pixels,
            v,
        ),
        spec_frame(pixels, screen_id, v).subrange(
            20 + PAYLOAD_LEN as int,
            FRAME_LEN as int,
        ) == spec_footer(),
{
    let f = spec_frame(pixels, screen_id, v);
    assert(f.subrange(0, 16) =~= spec_header(screen_id));
    assert(f.subrange(16, 20) =~= spec_command());
    assert(f.subrange(20, 20 + PAYLOAD_LEN as int) =~= spec_payload(pixels, v));
    assert(f.subrange(20 + PAYLOAD_LEN as int, FRAME_LEN as int) =~= spec_footer());
}

} // verus!
