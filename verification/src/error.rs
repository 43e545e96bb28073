//! The closed error taxonomy of the decoder: one cause per variant.
//! Every failure path of the library returns one of these values; malformed
//! input never panics.

use vstd::prelude::*;

verus! {

/// A fatal decoding error.  Any error aborts the whole decode: no partial
/// chunk list is salvaged and no recovery is attempted.
#[derive(Clone, Copy, Debug, PartialEq, Eq, Structural)]
pub enum DecodeError {
    /// The first 8 bytes of the stream are not the fixed magic sequence.
    MissingSignature,
    /// A read ran past the end of the input.
    UnexpectedEndOfInput,
    /// An image-header chunk declared a payload length other than 13.
    InvalidHeaderLength,
    /// A second image-header chunk appeared after one was already decoded.
    DuplicateHeader,
    /// A chunk other than the image header stood where the header must be
    /// (the header has to be the very first chunk of the stream).
    MisorderedHeader,
    /// The header's bit depth is not one of 1, 2, 4, 8, 16.
    InvalidBitDepth,
    /// The header's color model is not one of the five known codes.
    InvalidColorModel,
    /// The declared bit depth is not legal for the declared color model.
    IncompatibleBitDepthForColorModel,
    /// The header's compression method is not 0.
    InvalidCompressionMethod,
    /// The header's filter method is not 0.
    InvalidFilterMethod,
    /// The header's interlace method is not 0 or 1.
    InvalidInterlaceMethod,
    /// A palette chunk's declared length is zero or not a multiple of 3.
    InvalidPaletteLength,
    /// A palette chunk declared more than 256 entries.
    TooManyPaletteEntries,
    /// A palette chunk appeared under a color model that forbids one.
    UnexpectedPaletteChunk,
    /// A gamma chunk's declared length is not 4.
    InvalidGammaLength,
    /// A gamma chunk appeared after a palette or image-data chunk.
    MisorderedGamma,
    /// A chunk needing the header's color model was decoded before any
    /// image-header chunk.
    MissingHeaderState,
    /// A chunk needing palette indices was decoded before any palette chunk.
    MissingPaletteState,
    /// A background or transparency entry referenced a palette row that the
    /// decoded palette does not have.
    InvalidPaletteIndex,
    /// A transparency chunk appeared under an alpha-bearing color model.
    UnexpectedTransparencyChunk,
    /// A background chunk's declared length disagrees with the payload
    /// shape its color model dictates (2, 6 or 1 bytes).
    InvalidBackgroundLength,
    /// A transparency chunk's declared length disagrees with the payload
    /// shape its color model dictates (2 or 6 bytes; the indexed model
    /// admits any count of index bytes).
    InvalidTransparencyLength,
    /// A trailer chunk declared a payload length other than 0.
    InvalidTrailerLength,
    /// A chunk's stored checksum disagrees with the one recomputed over its
    /// tag and payload bytes.
    ChecksumMismatch,
}

} // verus!