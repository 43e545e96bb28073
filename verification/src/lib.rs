//! Decoder for the chunk layer of a PNG-style binary image container.
//!
//! The library parses an in-memory byte sequence into an ordered list of
//! typed chunks, validating framing (lengths, tags, checksums) and the
//! per-chunk semantic rules that depend on the image header's declared
//! color configuration.  Pixel decompression, scanline filtering and color
//! transforms are outside this crate: it stops at the chunk stream.

pub mod chunk;
pub mod crc;
pub mod cursor;
pub mod decoder;
pub mod error;
