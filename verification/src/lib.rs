//! Verified display protocol engine for a dual-panel USB LCD controller.
//!
//! The library maintains an in-memory framebuffer for a 480x272 panel pair,
//! packs colors into the device's native 16-bit pixel format, and frames the
//! buffer into the exact byte sequence the hardware expects per flush
//! (header, command, payload, footer). All protocol logic is verified; the
//! USB transport that carries the frames lives outside this crate.

pub mod codec;
pub mod display;
pub mod framebuffer;
pub mod framer;

pub use codec::Color;
pub use codec::pack;
pub use framebuffer::FrameBuffer;
pub use framebuffer::DISPLAY_WIDTH;
pub use framebuffer::DISPLAY_HEIGHT;
pub use framebuffer::PIXEL_COUNT;
pub use framer::PayloadVariant;
pub use framer::encode;
pub use framer::FRAME_LEN;
pub use framer::PAYLOAD_LEN;
pub use display::NiDisplay;
