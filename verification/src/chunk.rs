//! The typed representation of a decoded chunk stream: chunk types, the
//! enumerations declared by the image header, per-chunk payloads, and the
//! mathematical models (`Seq`-valued views) the contracts speak of.

use vstd::prelude::*;

verus! {

/// The closed set of chunk types this crate understands, with an `Unknown`
/// fallback that carries the unrecognised 4-byte tag.
#[derive(Clone, Copy, Debug, PartialEq, Eq, Structural)]
pub enum ChunkType {
    /// Mandatory first chunk ("IHDR"): image dimensions and pixel encoding.
    ImageHeader,
    /// Color table for indexed models ("PLTE").
    Palette,
    /// A slice of the compressed pixel stream ("IDAT").
    ImageData,
    /// Mandatory zero-length terminal marker ("IEND").
    ImageTrailer,
    /// Image gamma ("gAMA").
    Gamma,
    /// Default background color ("bKGD").
    Background,
    /// Transparency information ("tRNS").
    Transparency,
    /// Any other tag, kept with its four bytes.
    Unknown(u8, u8, u8, u8),
}

/// How pixel samples are structured.
#[derive(Clone, Copy, Debug, PartialEq, Eq, Structural)]
pub enum ColorType {
    Grayscale,
    Truecolor,
    Indexed,
    GrayscaleAlpha,
    TruecolorAlpha,
}

/// Bits per sample; only five values are legal.
#[derive(Clone, Copy, Debug, PartialEq, Eq, Structural)]
pub enum BitDepth {
    One,
    Two,
    Four,
    Eight,
    Sixteen,
}

/// Whether scanlines are stored progressively or in the seven-pass
/// interleaved pattern.
#[derive(Clone, Copy, Debug, PartialEq, Eq, Structural)]
pub enum InterlaceMethod {
    Progressive,
    Adam7,
}

/// Background payload; the active variant is decided by the color model the
/// image header declared, not by the chunk's own bytes.
#[derive(Clone, Copy, Debug, PartialEq, Eq, Structural)]
pub enum BackgroundData {
    Grayscale(u16),
    RGB(u16, u16, u16),
    PaletteIndex(u8),
}

/// Transparency payload; like the background, shaped by the header's color
/// model.
#[derive(Debug, PartialEq, Eq)]
pub enum TransparencyData {
    Graysample(u16),
    RGB(u16, u16, u16),
    PaletteIndices(Vec<u8>),
}

/// A decoded chunk payload, keyed by the chunk's type.
#[derive(Debug, PartialEq, Eq)]
pub enum ChunkData {
    ImageHeader {
        width: u32,
        height: u32,
        bit_depth: BitDepth,
        color_type: ColorType,
        compression_method: u8,
        filter_method: u8,
        interlace_method: InterlaceMethod,
    },
    Palette(Vec<(u8, u8, u8)>),
    ImageData(Vec<u8>),
    ImageTrailer,
    /// The raw 4-byte gamma value; the semantic multiplier is this value
    /// divided by 100000.
    Gamma { gamma_scaled: u32 },
    Background(BackgroundData),
    Transparency(TransparencyData),
    Unknown(Vec<u8>),
}

/// One complete chunk as stored in the stream: declared payload length,
/// resolved type, decoded payload and the stored checksum.
#[derive(Debug, PartialEq, Eq)]
pub struct Chunk {
    pub length: u32,
    pub ty: ChunkType,
    pub data: ChunkData,
    pub crc: u32,
}

/// Mathematical model of a transparency payload.
pub ghost enum TransparencyDataModel {
    Graysample(u16),
    RGB(u16, u16, u16),
    PaletteIndices(Seq<u8>),
}

/// Mathematical model of a chunk payload.
pub ghost enum ChunkDataModel {
    ImageHeader {
        width: u32,
        height: u32,
        bit_depth: BitDepth,
        color_type: ColorType,
        compression_method: u8,
        filter_method: u8,
        interlace_method: InterlaceMethod,
    },
    Palette(Seq<(u8, u8, u8)>),
    ImageData(Seq<u8>),
    ImageTrailer,
    Gamma { gamma_scaled: u32 },
    Background(BackgroundData),
    Transparency(TransparencyDataModel),
    Unknown(Seq<u8>),
}

/// Mathematical model of a chunk.
pub ghost struct ChunkModel {
    pub length: u32,
    pub ty: ChunkType,
    pub data: ChunkDataModel,
    pub crc: u32,
}

impl View for TransparencyData {
    type V = TransparencyDataModel;

    open spec fn view(&self) -> TransparencyDataModel {
        match self {
            TransparencyData::Graysample(g) => TransparencyDataModel::Graysample(*g),
            TransparencyData::RGB(r, g, b) => TransparencyDataModel::RGB(*r, *g, *b),
            TransparencyData::PaletteIndices(v) => TransparencyDataModel::PaletteIndices(v@),
        }
    }
}

impl View for ChunkData {
    type V = ChunkDataModel;

    open spec fn view(&self) -> ChunkDataModel {
        match self {
            ChunkData::ImageHeader {
                width,
                height,
                bit_depth,
                color_type,
                compression_method,
                filter_method,
                interlace_method,
            } => ChunkDataModel::ImageHeader {
                width: *width,
                height: *height,
                bit_depth: *bit_depth,
                color_type: *color_type,
                compression_method: *compression_method,
                filter_method: *filter_method,
                interlace_method: *interlace_method,
            },
            ChunkData::Palette(v) => ChunkDataModel::Palette(v@),
            ChunkData::ImageData(v) => ChunkDataModel::ImageData(v@),
            ChunkData::ImageTrailer => ChunkDataModel::ImageTrailer,
            ChunkData::Gamma { gamma_scaled } => ChunkDataModel::Gamma {
                gamma_scaled: *gamma_scaled,
            },
            ChunkData::Background(b) => ChunkDataModel::Background(*b),
            ChunkData::Transparency(t) => ChunkDataModel::Transparency(t@),
            ChunkData::Unknown(v) => ChunkDataModel::Unknown(v@),
        }
    }
}

impl View for Chunk {
    type V = ChunkModel;

    open spec fn view(&self) -> ChunkModel {
        ChunkModel { length: self.length, ty: self.ty, data: self.data@, crc: self.crc }
    }
}

/// The chunk type a 4-byte tag resolves to.
pub open spec fn spec_chunk_type(t: Seq<u8>) -> ChunkType
    recommends
        t.len() == 4,
{
    if t[0] == 73u8 && t[1] == 72u8 && t[2] == 68u8 && t[3] == 82u8 {
        ChunkType::ImageHeader
    } else if t[0] == 80u8 && t[1] == 76u8 && t[2] == 84u8 && t[3] == 69u8 {
        ChunkType::Palette
    } else if t[0] == 73u8 && t[1] == 68u8 && t[2] == 65u8 && t[3] == 84u8 {
        ChunkType::ImageData
    } else if t[0] == 73u8 && t[1] == 69u8 && t[2] == 78u8 && t[3] == 68u8 {
        ChunkType::ImageTrailer
    } else if t[0] == 103u8 && t[1] == 65u8 && t[2] == 77u8 && t[3] == 65u8 {
        ChunkType::Gamma
    } else if t[0] == 98u8 && t[1] == 75u8 && t[2] == 71u8 && t[3] == 68u8 {
        ChunkType::Background
    } else if t[0] == 116u8 && t[1] == 82u8 && t[2] == 78u8 && t[3] == 83u8 {
        ChunkType::Transparency
    } else {
        ChunkType::Unknown(t[0], t[1], t[2], t[3])
    }
}

/// Resolves a 4-byte ASCII tag to its chunk type; every unrecognised tag
/// becomes `Unknown`.
pub fn chunk_type_from_tag(t: &Vec<u8>) -> (ty: ChunkType)
    requires
        t@.len() == 4,
    ensures
        ty == spec_chunk_type(t@),
{
    if t[0] == 73u8 && t[1] == 72u8 && t[2] == 68u8 && t[3] == 82u8 {
        ChunkType::ImageHeader
    } else if t[0] == 80u8 && t[1] == 76u8 && t[2] == 84u8 && t[3] == 69u8 {
        ChunkType::Palette
    } else if t[0] == 73u8 && t[1] == 68u8 && t[2] == 65u8 && t[3] == 84u8 {
        ChunkType::ImageData
    } else if t[0] == 73u8 && t[1] == 69u8 && t[2] == 78u8 && t[3] == 68u8 {
        ChunkType::ImageTrailer
    } else if t[0] == 103u8 && t[1] == 65u8 && t[2] == 77u8 && t[3] == 65u8 {
        ChunkType::Gamma
    } else if t[0] == 98u8 && t[1] == 75u8 && t[2] == 71u8 && t[3] == 68u8 {
        ChunkType::Background
    } else if t[0] == 116u8 && t[1] == 82u8 && t[2] == 78u8 && t[3] == 83u8 {
        ChunkType::Transparency
    } else {
        ChunkType::Unknown(t[0], t[1], t[2], t[3])
    }
}

/// The bit depth a raw header byte stands for, or nothing when illegal.
pub open spec fn spec_bit_depth(v: u8) -> Option<BitDepth> {
    if v == 1u8 {
        Some(BitDepth::One)
    } else if v == 2u8 {
        Some(BitDepth::Two)
    } else if v == 4u8 {
        Some(BitDepth::Four)
    } else if v == 8u8 {
        Some(BitDepth::Eight)
    } else if v == 16u8 {
        Some(BitDepth::Sixteen)
    } else {
        Option::None
    }
}

/// The color model a raw header byte stands for, or nothing when illegal.
pub open spec fn spec_color_type(v: u8) -> Option<ColorType> {
    if v == 0u8 {
        Some(ColorType::Grayscale)
    } else if v == 2u8 {
        Some(ColorType::Truecolor)
    } else if v == 3u8 {
        Some(ColorType::Indexed)
    } else if v == 4u8 {
        Some(ColorType::GrayscaleAlpha)
    } else if v == 6u8 {
        Some(ColorType::TruecolorAlpha)
    } else {
        Option::None
    }
}

/// The interlace method a raw header byte stands for, or nothing when
/// illegal.
pub open spec fn spec_interlace_method(v: u8) -> Option<InterlaceMethod> {
    if v == 0u8 {
        Some(InterlaceMethod::Progressive)
    } else if v == 1u8 {
        Some(InterlaceMethod::Adam7)
    } else {
        Option::None
    }
}

/// The cross-field legality rule of the header: indexed images cannot use
/// 16-bit samples, and every model with more than one channel needs 8- or
/// 16-bit samples; grayscale alone permits all five depths.
pub open spec fn spec_depth_compatible(color: ColorType, depth: BitDepth) -> bool {
    match color {
        ColorType::Grayscale => true,
        ColorType::Indexed => depth != BitDepth::Sixteen,
        _ => depth == BitDepth::Eight || depth == BitDepth::Sixteen,
    }
}

impl BitDepth {
    pub fn from_raw(v: u8) -> (r: Option<BitDepth>)
        ensures
            r == spec_bit_depth(v),
    {
        if v == 1u8 {
            Some(BitDepth::One)
        } else if v == 2u8 {
            Some(BitDepth::Two)
        } else if v == 4u8 {
            Some(BitDepth::Four)
        } else if v == 8u8 {
            Some(BitDepth::Eight)
        } else if v == 16u8 {
            Some(BitDepth::Sixteen)
        } else {
            Option::None
        }
    }
}

impl ColorType {
    pub fn from_raw(v: u8) -> (r: Option<ColorType>)
        ensures
            r == spec_color_type(v),
    {
        if v == 0u8 {
            Some(ColorType::Grayscale)
        } else if v == 2u8 {
            Some(ColorType::Truecolor)
        } else if v == 3u8 {
            Some(ColorType::Indexed)
        } else if v == 4u8 {
            Some(ColorType::GrayscaleAlpha)
        } else if v == 6u8 {
            Some(ColorType::TruecolorAlpha)
        } else {
            Option::None
        }
    }
}

impl InterlaceMethod {
    pub fn from_raw(v: u8) -> (r: Option<InterlaceMethod>)
        ensures
            r == spec_interlace_method(v),
    {
        if v == 0u8 {
            Some(InterlaceMethod::Progressive)
        } else if v == 1u8 {
            Some(InterlaceMethod::Adam7)
        } else {
            Option::None
        }
    }
}

/// Whether `depth` is legal under `color`; the executable side of
/// `spec_depth_compatible`.
pub fn depth_compatible(color: ColorType, depth: BitDepth) -> (r: bool)
    ensures
        r == spec_depth_compatible(color, depth),
{
    match color {
        ColorType::Grayscale => true,
        ColorType::Indexed => depth != BitDepth::Sixteen,
        _ => depth == BitDepth::Eight || depth == BitDepth::Sixteen,
    }
}

} // verus!
