//! The driver of the chunk-stream state machine, and the specification-level
//! decoder it is proved against.

use crate::chunk::{
    chunk_type_from_tag, depth_compatible, spec_bit_depth, spec_chunk_type, spec_color_type,
    spec_depth_compatible, spec_interlace_method, BackgroundData, BitDepth, Chunk, ChunkData,
    ChunkDataModel, ChunkModel, ChunkType, ColorType, InterlaceMethod, TransparencyData,
    TransparencyDataModel,
};
use crate::crc::{chunk_crc, spec_chunk_crc};
use crate::cursor::{be16, be16_at, be32, be32_at, Cursor};
use crate::error::DecodeError;
use vstd::prelude::*;

verus! {

/// The cross-chunk state the driver carries: the color model and palette
/// size resolved from already-decoded chunks, and whether image data has
/// started (gamma must come before it).
pub ghost struct ScanState {
    pub color: Option<ColorType>,
    pub palette_entries: Option<u32>,
    pub data_seen: bool,
}

/// The state before any chunk has been decoded.
pub open spec fn initial_state() -> ScanState {
    ScanState { color: Option::None, palette_entries: Option::None, data_seen: false }
}

/// The fixed 8-byte magic sequence that must open every stream.
pub open spec fn spec_signature() -> Seq<u8> {
    seq![137u8, 80u8, 78u8, 71u8, 13u8, 10u8, 26u8, 10u8]
}

/// A successful payload parse: the decoded payload, the position just past
/// the consumed bytes, and the cross-chunk state after the chunk.
pub ghost struct PayloadStep {
    pub data: ChunkDataModel,
    pub end: int,
    pub state: ScanState,
}

/// A successful whole-chunk parse: the chunk, the position just past its
/// checksum, and the cross-chunk state after it.
pub ghost struct ChunkStep {
    pub chunk: ChunkModel,
    pub end: int,
    pub state: ScanState,
}

/// Parse of an image-header payload at `pos`.  The declared length must be
/// exactly 13; the seven fields follow in fixed order (width, height, bit
/// depth, color model, compression method, filter method, interlace
/// method), each validated, with the depth/model cross-check right after
/// both are known.  A header when one was already decoded is a duplicate.
/// Width and height are recorded but not validated: the error taxonomy
/// names no variant for zero dimensions, so rejecting them is left to the
/// consumers of the decoded configuration.
pub open spec fn spec_read_header(s: Seq<u8>, pos: int, length: u32, st: ScanState) -> Result<
    PayloadStep,
    DecodeError,
> {
    if length != 13 {
        Err(DecodeError::InvalidHeaderLength)
    } else if st.color is Some {
        Err(DecodeError::DuplicateHeader)
    } else if pos + 13 > s.len() {
        Err(DecodeError::UnexpectedEndOfInput)
    } else {
        match spec_bit_depth(s[pos + 8]) {
            Option::None => Err(DecodeError::InvalidBitDepth),
            Some(depth) => match spec_color_type(s[pos + 9]) {
                Option::None => Err(DecodeError::InvalidColorModel),
                Some(color) => if !spec_depth_compatible(color, depth) {
                    Err(DecodeError::IncompatibleBitDepthForColorModel)
                } else if s[pos + 10] != 0 {
                    Err(DecodeError::InvalidCompressionMethod)
                } else if s[pos + 11] != 0 {
                    Err(DecodeError::InvalidFilterMethod)
                } else {
                    match spec_interlace_method(s[pos + 12]) {
                        Option::None => Err(DecodeError::InvalidInterlaceMethod),
                        Some(im) => Ok(
                            PayloadStep {
                                data: ChunkDataModel::ImageHeader {
                                    width: be32(s, pos),
                                    height: be32(s, pos + 4),
                                    bit_depth: depth,
                                    color_type: color,
                                    compression_method: s[pos + 10],
                                    filter_method: s[pos + 11],
                                    interlace_method: im,
                                },
                                end: pos + 13,
                                state: ScanState { color: Some(color), ..st },
                            },
                        ),
                    }
                },
            },
        }
    }
}

/// Parse of a gamma payload: length must be 4, the chunk must precede any
/// palette or image-data chunk, and the payload is one big-endian value
/// (gamma times 100000).
pub open spec fn spec_read_gamma(s: Seq<u8>, pos: int, length: u32, st: ScanState) -> Result<
    PayloadStep,
    DecodeError,
> {
    if length != 4 {
        Err(DecodeError::InvalidGammaLength)
    } else if st.palette_entries is Some || st.data_seen {
        Err(DecodeError::MisorderedGamma)
    } else if pos + 4 > s.len() {
        Err(DecodeError::UnexpectedEndOfInput)
    } else {
        Ok(
            PayloadStep {
                data: ChunkDataModel::Gamma { gamma_scaled: be32(s, pos) },
                end: pos + 4,
                state: st,
            },
        )
    }
}

/// The `n` color triples stored at `pos`, in file order.
pub open spec fn spec_palette_seq(s: Seq<u8>, pos: int, n: int) -> Seq<(u8, u8, u8)> {
    Seq::new(n as nat, |i: int| (s[pos + 3 * i], s[pos + 3 * i + 1], s[pos + 3 * i + 2]))
}

/// Parse of a palette payload: only legal once the header declared a color
/// model that uses one; the length must be a positive multiple of 3 naming
/// at most 256 entries.
pub open spec fn spec_read_palette(s: Seq<u8>, pos: int, length: u32, st: ScanState) -> Result<
    PayloadStep,
    DecodeError,
> {
    match st.color {
        Option::None => Err(DecodeError::MissingHeaderState),
        Some(color) => if color == ColorType::Grayscale || color == ColorType::GrayscaleAlpha {
            Err(DecodeError::UnexpectedPaletteChunk)
        } else if length == 0 || length % 3 != 0 {
            Err(DecodeError::InvalidPaletteLength)
        } else if length / 3 > 256 {
            Err(DecodeError::TooManyPaletteEntries)
        } else if pos + length > s.len() {
            Err(DecodeError::UnexpectedEndOfInput)
        } else {
            Ok(
                PayloadStep {
                    data: ChunkDataModel::Palette(spec_palette_seq(s, pos, length as int / 3)),
                    end: pos + length,
                    state: ScanState { palette_entries: Some((length / 3) as u32), ..st },
                },
            )
        },
    }
}

/// Parse of an image-data payload: the declared length of opaque bytes,
/// uninterpreted here.  Multiple occurrences are legal; the caller
/// concatenates them in file order.
pub open spec fn spec_read_data(s: Seq<u8>, pos: int, length: u32, st: ScanState) -> Result<
    PayloadStep,
    DecodeError,
> {
    if pos + length > s.len() {
        Err(DecodeError::UnexpectedEndOfInput)
    } else {
        Ok(
            PayloadStep {
                data: ChunkDataModel::ImageData(s.subrange(pos, pos + length)),
                end: pos + length,
                state: ScanState { data_seen: true, ..st },
            },
        )
    }
}

/// Parse of a background payload.  The shape comes from the header's color
/// model: one 2-byte sample, three 2-byte samples, or one palette index
/// that must name a row of the already-decoded palette.  The declared
/// length must equal that shape's size, so the decoder consumes exactly
/// `length` payload bytes.
pub open spec fn spec_read_background(s: Seq<u8>, pos: int, length: u32, st: ScanState) -> Result<
    PayloadStep,
    DecodeError,
> {
    match st.color {
        Option::None => Err(DecodeError::MissingHeaderState),
        Some(color) => match color {
            ColorType::Grayscale | ColorType::GrayscaleAlpha => if length != 2 {
                Err(DecodeError::InvalidBackgroundLength)
            } else if pos + 2 > s.len() {
                Err(DecodeError::UnexpectedEndOfInput)
            } else {
                Ok(
                    PayloadStep {
                        data: ChunkDataModel::Background(BackgroundData::Grayscale(be16(s, pos))),
                        end: pos + 2,
                        state: st,
                    },
                )
            },
            ColorType::Truecolor | ColorType::TruecolorAlpha => if length != 6 {
                Err(DecodeError::InvalidBackgroundLength)
            } else if pos + 6 > s.len() {
                Err(DecodeError::UnexpectedEndOfInput)
            } else {
                Ok(
                    PayloadStep {
                        data: ChunkDataModel::Background(
                            BackgroundData::RGB(be16(s, pos), be16(s, pos + 2), be16(s, pos + 4)),
                        ),
                        end: pos + 6,
                        state: st,
                    },
                )
            },
            ColorType::Indexed => if length != 1 {
                Err(DecodeError::InvalidBackgroundLength)
            } else {
                match st.palette_entries {
                    Option::None => Err(DecodeError::MissingPaletteState),
                    Some(n) => if pos + 1 > s.len() {
                        Err(DecodeError::UnexpectedEndOfInput)
                    } else if s[pos] as u32 >= n {
                        Err(DecodeError::InvalidPaletteIndex)
                    } else {
                        Ok(
                            PayloadStep {
                                data: ChunkDataModel::Background(
                                    BackgroundData::PaletteIndex(s[pos]),
                                ),
                                end: pos + 1,
                                state: st,
                            },
                        )
                    },
                }
            },
        },
    }
}

/// Parse of a transparency payload.  Alpha-bearing color models reject the
/// chunk outright, whatever its declared length; grayscale and truecolor
/// read one fixed-width sample shape, whose size the declared length must
/// equal; the indexed model reads `length` palette indices, each of which
/// must name a row of the already-decoded palette.  So every successful
/// parse consumes exactly `length` payload bytes.
pub open spec fn spec_read_transparency(s: Seq<u8>, pos: int, length: u32, st: ScanState) -> Result<
    PayloadStep,
    DecodeError,
> {
    match st.color {
        Option::None => Err(DecodeError::MissingHeaderState),
        Some(color) => match color {
            ColorType::GrayscaleAlpha | ColorType::TruecolorAlpha => Err(
                DecodeError::UnexpectedTransparencyChunk,
            ),
            ColorType::Grayscale => if length != 2 {
                Err(DecodeError::InvalidTransparencyLength)
            } else if pos + 2 > s.len() {
                Err(DecodeError::UnexpectedEndOfInput)
            } else {
                Ok(
                    PayloadStep {
                        data: ChunkDataModel::Transparency(
                            TransparencyDataModel::Graysample(be16(s, pos)),
                        ),
                        end: pos + 2,
                        state: st,
                    },
                )
            },
            ColorType::Truecolor => if length != 6 {
                Err(DecodeError::InvalidTransparencyLength)
            } else if pos + 6 > s.len() {
                Err(DecodeError::UnexpectedEndOfInput)
            } else {
                Ok(
                    PayloadStep {
                        data: ChunkDataModel::Transparency(
                            TransparencyDataModel::RGB(
                                be16(s, pos),
                                be16(s, pos + 2),
                                be16(s, pos + 4),
                            ),
                        ),
                        end: pos + 6,
                        state: st,
                    },
                )
            },
            ColorType::Indexed => match st.palette_entries {
                Option::None => Err(DecodeError::MissingPaletteState),
                Some(n) => if pos + length > s.len() {
                    Err(DecodeError::UnexpectedEndOfInput)
                } else if exists|i: int| 0 <= i < length && #[trigger] (s[pos + i] as u32) >= n {
                    Err(DecodeError::InvalidPaletteIndex)
                } else {
                    Ok(
                        PayloadStep {
                            data: ChunkDataModel::Transparency(
                                TransparencyDataModel::PaletteIndices(
                                    s.subrange(pos, pos + length),
                                ),
                            ),
                            end: pos + length,
                            state: st,
                        },
                    )
                },
            },
        },
    }
}

/// Parse of an unknown chunk's payload: the declared length of bytes, kept
/// opaquely rather than skipped.
pub open spec fn spec_read_unknown(s: Seq<u8>, pos: int, length: u32, st: ScanState) -> Result<
    PayloadStep,
    DecodeError,
> {
    if pos + length > s.len() {
        Err(DecodeError::UnexpectedEndOfInput)
    } else {
        Ok(
            PayloadStep {
                data: ChunkDataModel::Unknown(s.subrange(pos, pos + length)),
                end: pos + length,
                state: st,
            },
        )
    }
}

/// Dispatch of a chunk's payload parse on its resolved type.  The trailer
/// is the zero-length terminal marker: it must declare length 0 and
/// consumes nothing.  Every decoder consumes exactly the declared length,
/// or fails with a typed error.
pub open spec fn spec_read_payload(
    s: Seq<u8>,
    pos: int,
    length: u32,
    st: ScanState,
    ty: ChunkType,
) -> Result<PayloadStep, DecodeError> {
    match ty {
        ChunkType::ImageHeader => spec_read_header(s, pos, length, st),
        ChunkType::Palette => spec_read_palette(s, pos, length, st),
        ChunkType::ImageData => spec_read_data(s, pos, length, st),
        ChunkType::ImageTrailer => if length != 0 {
            Err(DecodeError::InvalidTrailerLength)
        } else {
            Ok(PayloadStep { data: ChunkDataModel::ImageTrailer, end: pos, state: st })
        },
        ChunkType::Gamma => spec_read_gamma(s, pos, length, st),
        ChunkType::Background => spec_read_background(s, pos, length, st),
        ChunkType::Transparency => spec_read_transparency(s, pos, length, st),
        ChunkType::Unknown(_, _, _, _) => spec_read_unknown(s, pos, length, st),
    }
}

/// Parse of one whole chunk at `pos`: 4-byte big-endian payload length,
/// 4-byte tag, payload, then a 4-byte stored checksum that must equal the
/// one recomputed over the tag and the payload bytes actually read.  The
/// image header has to be the very first chunk, so any other type while no
/// header has been decoded is misordered.
pub open spec fn spec_read_chunk(s: Seq<u8>, pos: int, st: ScanState) -> Result<
    ChunkStep,
    DecodeError,
> {
    if pos + 8 > s.len() {
        Err(DecodeError::UnexpectedEndOfInput)
    } else {
        let length = be32(s, pos);
        let tag = s.subrange(pos + 4, pos + 8);
        let ty = spec_chunk_type(tag);
        if st.color is None && ty != ChunkType::ImageHeader {
            Err(DecodeError::MisorderedHeader)
        } else {
            match spec_read_payload(s, pos + 8, length, st, ty) {
                Err(e) => Err(e),
                Ok(step) => if step.end + 4 > s.len() {
                    Err(DecodeError::UnexpectedEndOfInput)
                } else if spec_chunk_crc(tag, s.subrange(pos + 8, step.end)) != be32(s, step.end) {
                    Err(DecodeError::ChecksumMismatch)
                } else {
                    Ok(
                        ChunkStep {
                            chunk: ChunkModel {
                                length,
                                ty,
                                data: step.data,
                                crc: be32(s, step.end),
                            },
                            end: step.end + 4,
                            state: step.state,
                        },
                    )
                },
            }
        }
    }
}

/// Law: a successful payload parse consumes exactly the declared length
/// and stays inside the input.
pub proof fn lemma_payload_step_bounds(
    s: Seq<u8>,
    pos: int,
    length: u32,
    st: ScanState,
    ty: ChunkType,
)
    requires
        0 <= pos <= s.len(),
        spec_read_payload(s, pos, length, st, ty) is Ok,
    ensures
        spec_read_payload(s, pos, length, st, ty)->Ok_0.end == pos + length,
        spec_read_payload(s, pos, length, st, ty)->Ok_0.end <= s.len(),
{
}

/// Law: a successful chunk parse consumes exactly its 12 framing bytes
/// plus its declared payload length, and stays inside the input.
pub proof fn lemma_chunk_step_bounds(s: Seq<u8>, pos: int, st: ScanState)
    requires
        0 <= pos <= s.len(),
        spec_read_chunk(s, pos, st) is Ok,
    ensures
        spec_read_chunk(s, pos, st)->Ok_0.end == pos + 12 + spec_read_chunk(
            s,
            pos,
            st,
        )->Ok_0.chunk.length,
        pos + 12 <= spec_read_chunk(s, pos, st)->Ok_0.end <= s.len(),
{
    let length = be32(s, pos);
    let tag = s.subrange(pos + 4, pos + 8);
    let ty = spec_chunk_type(tag);
    lemma_payload_step_bounds(s, pos + 8, length, st, ty);
}

/// The number of stream bytes a chunk sequence stands for: 12 framing
/// bytes (length, tag, checksum) plus the declared payload length, chunk
/// by chunk.
pub open spec fn spec_chunks_size(cs: Seq<ChunkModel>) -> int
    decreases cs.len(),
{
    if cs.len() == 0 {
        0
    } else {
        12 + cs[0].length + spec_chunks_size(cs.drop_first())
    }
}

/// Appending one chunk grows the stream size by that chunk's 12 framing
/// bytes plus its declared length.
proof fn lemma_chunks_size_push(cs: Seq<ChunkModel>, c: ChunkModel)
    ensures
        spec_chunks_size(cs.push(c)) == spec_chunks_size(cs) + 12 + c.length,
    decreases cs.len(),
{
    if cs.len() == 0 {
        assert(cs.push(c) =~= seq![c]);
        assert(seq![c].drop_first() =~= Seq::<ChunkModel>::empty());
        assert(spec_chunks_size(Seq::<ChunkModel>::empty()) == 0);
    } else {
        assert(cs.push(c).drop_first() =~= cs.drop_first().push(c));
        lemma_chunks_size_push(cs.drop_first(), c);
    }
}

/// Parse of the chunk sequence from `pos` to the trailer chunk, which ends
/// the scan; bytes after it are not consumed.
pub open spec fn spec_scan(s: Seq<u8>, pos: int, st: ScanState) -> Result<
    Seq<ChunkModel>,
    DecodeError,
>
    decreases s.len() - pos
        when 0 <= pos <= s.len()
        via spec_scan_decreases
{
    match spec_read_chunk(s, pos, st) {
        Err(e) => Err(e),
        Ok(step) => if step.chunk.ty == ChunkType::ImageTrailer {
            Ok(seq![step.chunk])
        } else {
            match spec_scan(s, step.end, step.state) {
                Err(e) => Err(e),
                Ok(rest) => Ok(seq![step.chunk] + rest),
            }
        },
    }
}

#[via_fn]
proof fn spec_scan_decreases(s: Seq<u8>, pos: int, st: ScanState) {
    if spec_read_chunk(s, pos, st) is Ok {
        lemma_chunk_step_bounds(s, pos, st);
    }
}

/// The whole decode of a byte sequence: the fixed signature first, then
/// chunks until the trailer.
pub open spec fn spec_decode(s: Seq<u8>) -> Result<Seq<ChunkModel>, DecodeError> {
    if s.len() < 8 {
        Err(DecodeError::UnexpectedEndOfInput)
    } else if s.subrange(0, 8) != spec_signature() {
        Err(DecodeError::MissingSignature)
    } else {
        spec_scan(s, 8, initial_state())
    }
}

/// Owns the cursor and the growing ordered chunk list; single-use for one
/// decode pass.
pub struct Decoder {
    cursor: Cursor,
    chunks: Vec<Chunk>,
    color_type: Option<ColorType>,
    palette_entries: Option<u32>,
    data_seen: bool,
}

impl Decoder {
    /// The whole input byte sequence.
    pub closed spec fn input(&self) -> Seq<u8> {
        self.cursor.data()
    }

    /// The cursor's position in the input.
    pub closed spec fn position(&self) -> int {
        self.cursor.position()
    }

    /// The chunks decoded so far.
    pub closed spec fn chunks_seq(&self) -> Seq<Chunk> {
        self.chunks@
    }

    /// The models of the chunks decoded so far.
    pub open spec fn chunk_models(&self) -> Seq<ChunkModel> {
        self.chunks_seq().map_values(|c: Chunk| c@)
    }

    /// The cross-chunk state decoded so far.
    pub closed spec fn scan_state(&self) -> ScanState {
        ScanState {
            color: self.color_type,
            palette_entries: self.palette_entries,
            data_seen: self.data_seen,
        }
    }

    pub open spec fn wf(&self) -> bool {
        0 <= self.position() <= self.input().len()
    }

    /// A decoder that has not started: cursor at the origin, no chunks, no
    /// cross-chunk state.
    pub open spec fn is_fresh(&self) -> bool {
        &&& self.position() == 0
        &&& self.chunks_seq() == Seq::<Chunk>::empty()
        &&& self.scan_state() == initial_state()
    }

    pub fn new(bytes: Vec<u8>) -> (d: Decoder)
        ensures
            d.wf(),
            d.is_fresh(),
            d.input() == bytes@,
    {
        let d = Decoder {
            cursor: Cursor::new(bytes),
            chunks: Vec::new(),
            color_type: Option::None,
            palette_entries: Option::None,
            data_seen: false,
        };
        proof {
            assert(d.chunks_seq() =~= Seq::<Chunk>::empty());
        }
        d
    }

    /// The ordered chunk list decoded so far: after a successful `decode`
    /// the whole stream's chunk sequence, and after a failed one the empty
    /// list — a failed pass salvages no partial result.
    pub fn chunks(&self) -> (r: &Vec<Chunk>)
        ensures
            r@ == self.chunks_seq(),
    {
        &self.chunks
    }

    /// The color model the image header declared.  The header chunk must
    /// already have been decoded.
    pub fn get_color_type(&self) -> (c: ColorType)
        requires
            self.scan_state().color is Some,
        ensures
            c == self.scan_state().color->0,
    {
        match self.color_type {
            Some(c) => c,
            Option::None => vstd::pervasive::unreached(),
        }
    }

    /// Reads and checks the fixed 8-byte magic sequence that must open the
    /// stream.  This runs exactly once, before any chunk.
    pub fn read_signature(&mut self) -> (r: Result<(), DecodeError>)
        requires
            old(self).wf(),
        ensures
            final(self).wf(),
            final(self).input() == old(self).input(),
            final(self).chunks_seq() == old(self).chunks_seq(),
            final(self).scan_state() == old(self).scan_state(),
            old(self).position() <= final(self).position(),
            ({
                let s = old(self).input();
                let p = old(self).position();
                if p + 8 > s.len() {
                    r == Err::<(), DecodeError>(DecodeError::UnexpectedEndOfInput)
                        && final(self).position() == p
                } else if s.subrange(p, p + 8) == spec_signature() {
                    r == Ok::<(), DecodeError>(()) && final(self).position() == p + 8
                } else {
                    r == Err::<(), DecodeError>(DecodeError::MissingSignature)
                        && final(self).position() == p + 8
                }
            }),
    {
        let v = match self.cursor.read_n(8) {
            Ok(v) => v,
            Err(e) => { return Err(e) },
        };
        proof {
            assert(spec_signature()[0] == 137u8);
            assert(spec_signature()[1] == 80u8);
            assert(spec_signature()[2] == 78u8);
            assert(spec_signature()[3] == 71u8);
            assert(spec_signature()[4] == 13u8);
            assert(spec_signature()[5] == 10u8);
            assert(spec_signature()[6] == 26u8);
            assert(spec_signature()[7] == 10u8);
        }
        if v[0] == 137u8 && v[1] == 80u8 && v[2] == 78u8 && v[3] == 71u8 && v[4] == 13u8 && v[5]
            == 10u8 && v[6] == 26u8 && v[7] == 10u8 {
            proof {
                assert(v@ =~= spec_signature());
            }
            Ok(())
        } else {
            Err(DecodeError::MissingSignature)
        }
    }

    /// Decodes the image-header payload ("IHDR"): exactly 13 bytes holding
    /// width, height, bit depth, color model, compression method, filter
    /// method and interlace method, in that order.  Records the color model
    /// for the chunks that depend on it.
    pub fn read_ihdr_chunk_data(&mut self, length: u32) -> (r: Result<ChunkData, DecodeError>)
        requires
            old(self).wf(),
        ensures
            final(self).wf(),
            final(self).input() == old(self).input(),
            final(self).chunks_seq() == old(self).chunks_seq(),
            old(self).position() <= final(self).position(),
            match spec_read_header(
                old(self).input(),
                old(self).position(),
                length,
                old(self).scan_state(),
            ) {
                Ok(step) => r is Ok && r->Ok_0@ == step.data && final(self).position() == step.end
                    && final(self).scan_state() == step.state,
                Err(e) => {
                    &&& r == Err::<ChunkData, DecodeError>(e)
                    &&& final(self).scan_state() == old(self).scan_state()
                    &&& final(self).position() == if e == DecodeError::InvalidHeaderLength || e
                        == DecodeError::DuplicateHeader || e == DecodeError::UnexpectedEndOfInput {
                        old(self).position()
                    } else {
                        old(self).position() + 13
                    }
                },
            },
    {
        if length != 13 {
            return Err(DecodeError::InvalidHeaderLength);
        }
        if self.color_type.is_some() {
            return Err(DecodeError::DuplicateHeader);
        }
        let payload = match self.cursor.read_n(13) {
            Ok(v) => v,
            Err(e) => { return Err(e) },
        };
        let width = be32_at(&payload, 0);
        let height = be32_at(&payload, 4);
        let bit_depth = match BitDepth::from_raw(payload[8]) {
            Some(d) => d,
            Option::None => { return Err(DecodeError::InvalidBitDepth) },
        };
        let color_type = match ColorType::from_raw(payload[9]) {
            Some(c) => c,
            Option::None => { return Err(DecodeError::InvalidColorModel) },
        };
        if !depth_compatible(color_type, bit_depth) {
            return Err(DecodeError::IncompatibleBitDepthForColorModel);
        }
        let compression_method = payload[10];
        if compression_method != 0 {
            return Err(DecodeError::InvalidCompressionMethod);
        }
        let filter_method = payload[11];
        if filter_method != 0 {
            return Err(DecodeError::InvalidFilterMethod);
        }
        let interlace_method = match InterlaceMethod::from_raw(payload[12]) {
            Some(m) => m,
            Option::None => { return Err(DecodeError::InvalidInterlaceMethod) },
        };
        self.color_type = Some(color_type);
        Ok(
            ChunkData::ImageHeader {
                width,
                height,
                bit_depth,
                color_type,
                compression_method,
                filter_method,
                interlace_method,
            },
        )
    }

    /// Decodes an image-data payload ("IDAT"): `length` opaque bytes of the
    /// compressed pixel stream, kept uninterpreted.
    pub fn read_idat_chunk_data(&mut self, length: u32) -> (r: Result<ChunkData, DecodeError>)
        requires
            old(self).wf(),
        ensures
            final(self).wf(),
            final(self).input() == old(self).input(),
            final(self).chunks_seq() == old(self).chunks_seq(),
            old(self).position() <= final(self).position(),
            match spec_read_data(
                old(self).input(),
                old(self).position(),
                length,
                old(self).scan_state(),
            ) {
                Ok(step) => r is Ok && r->Ok_0@ == step.data && final(self).position() == step.end
                    && final(self).scan_state() == step.state,
                Err(e) => {
                    &&& r == Err::<ChunkData, DecodeError>(e)
                    &&& final(self).scan_state() == old(self).scan_state()
                    &&& final(self).position() == old(self).position()
                },
            },
    {
        let bytes = match self.cursor.read_n(length as usize) {
            Ok(v) => v,
            Err(e) => { return Err(e) },
        };
        self.data_seen = true;
        Ok(ChunkData::ImageData(bytes))
    }

    /// Decodes a gamma payload ("gAMA"): one 4-byte big-endian value, gamma
    /// times 100000.  The chunk must precede any palette or image-data
    /// chunk.
    pub fn read_gama_chunk_data(&mut self, length: u32) -> (r: Result<ChunkData, DecodeError>)
        requires
            old(self).wf(),
        ensures
            final(self).wf(),
            final(self).input() == old(self).input(),
            final(self).chunks_seq() == old(self).chunks_seq(),
            old(self).position() <= final(self).position(),
            match spec_read_gamma(
                old(self).input(),
                old(self).position(),
                length,
                old(self).scan_state(),
            ) {
                Ok(step) => r is Ok && r->Ok_0@ == step.data && final(self).position() == step.end
                    && final(self).scan_state() == step.state,
                Err(e) => {
                    &&& r == Err::<ChunkData, DecodeError>(e)
                    &&& final(self).scan_state() == old(self).scan_state()
                    &&& final(self).position() == old(self).position()
                },
            },
    {
        if length != 4 {
            return Err(DecodeError::InvalidGammaLength);
        }
        if self.palette_entries.is_some() || self.data_seen {
            return Err(DecodeError::MisorderedGamma);
        }
        let gamma_scaled = match self.cursor.read_u32() {
            Ok(v) => v,
            Err(e) => { return Err(e) },
        };
        Ok(ChunkData::Gamma { gamma_scaled })
    }

    /// Decodes a palette payload ("PLTE"): `length / 3` color triples in
    /// file order.  Records the entry count for later index validation.
    #[verifier::loop_isolation(false)]
    pub fn read_plte_chunk_data(&mut self, length: u32) -> (r: Result<ChunkData, DecodeError>)
        requires
            old(self).wf(),
        ensures
            final(self).wf(),
            final(self).input() == old(self).input(),
            final(self).chunks_seq() == old(self).chunks_seq(),
            old(self).position() <= final(self).position(),
            match spec_read_palette(
                old(self).input(),
                old(self).position(),
                length,
                old(self).scan_state(),
            ) {
                Ok(step) => r is Ok && r->Ok_0@ == step.data && final(self).position() == step.end
                    && final(self).scan_state() == step.state,
                Err(e) => {
                    &&& r == Err::<ChunkData, DecodeError>(e)
                    &&& final(self).scan_state() == old(self).scan_state()
                    &&& final(self).position() == old(self).position()
                },
            },
    {
        let color = match self.color_type {
            Some(c) => c,
            Option::None => { return Err(DecodeError::MissingHeaderState) },
        };
        if color == ColorType::Grayscale || color == ColorType::GrayscaleAlpha {
            return Err(DecodeError::UnexpectedPaletteChunk);
        }
        if length == 0 || length % 3 != 0 {
            return Err(DecodeError::InvalidPaletteLength);
        }
        if length / 3 > 256 {
            return Err(DecodeError::TooManyPaletteEntries);
        }
        let bytes = match self.cursor.read_n(length as usize) {
            Ok(v) => v,
            Err(e) => { return Err(e) },
        };
        let n = (length / 3) as usize;
        let mut entries: Vec<(u8, u8, u8)> = Vec::new();
        let mut i: usize = 0;
        while i < n
            invariant
                i <= n,
                3 * n == bytes@.len(),
                entries@.len() == i,
                forall|j: int|
                    0 <= j < i ==> #[trigger] entries@[j] == (
                        bytes@[3 * j],
                        bytes@[3 * j + 1],
                        bytes@[3 * j + 2],
                    ),
            decreases n - i,
        {
            entries.push((bytes[3 * i], bytes[3 * i + 1], bytes[3 * i + 2]));
            i += 1;
        }
        self.palette_entries = Some(length / 3);
        proof {
            let s = old(self).input();
            let p = old(self).position();
            assert(entries@ =~= spec_palette_seq(s, p, length as int / 3)) by {
                assert forall|j: int| 0 <= j < n implies entries@[j] == (
                    s[p + 3 * j],
                    s[p + 3 * j + 1],
                    s[p + 3 * j + 2],
                ) by {
                    assert(bytes@[3 * j] == s[p + 3 * j]);
                    assert(bytes@[3 * j + 1] == s[p + 3 * j + 1]);
                    assert(bytes@[3 * j + 2] == s[p + 3 * j + 2]);
                }
            };
        }
        Ok(ChunkData::Palette(entries))
    }

    /// Decodes a background payload ("bKGD"); its shape follows the color
    /// model the image header declared, which must already be decoded, and
    /// the declared length must equal that shape's size.  After the one
    /// palette-index byte is read, an out-of-range index fails; every other
    /// failure consumes nothing.
    pub fn read_bkgd_chunk_data(&mut self, length: u32) -> (r: Result<ChunkData, DecodeError>)
        requires
            old(self).wf(),
        ensures
            final(self).wf(),
            final(self).input() == old(self).input(),
            final(self).chunks_seq() == old(self).chunks_seq(),
            old(self).position() <= final(self).position(),
            match spec_read_background(
                old(self).input(),
                old(self).position(),
                length,
                old(self).scan_state(),
            ) {
                Ok(step) => r is Ok && r->Ok_0@ == step.data && final(self).position() == step.end
                    && final(self).scan_state() == step.state,
                Err(e) => {
                    &&& r == Err::<ChunkData, DecodeError>(e)
                    &&& final(self).scan_state() == old(self).scan_state()
                    &&& final(self).position() == if e == DecodeError::InvalidPaletteIndex {
                        old(self).position() + 1
                    } else {
                        old(self).position()
                    }
                },
            },
    {
        let color = match self.color_type {
            Some(c) => c,
            Option::None => { return Err(DecodeError::MissingHeaderState) },
        };
        match color {
            ColorType::Grayscale | ColorType::GrayscaleAlpha => {
                if length != 2 {
                    return Err(DecodeError::InvalidBackgroundLength);
                }
                let bytes = match self.cursor.read_n(2) {
                    Ok(v) => v,
                    Err(e) => { return Err(e) },
                };
                let g = be16_at(&bytes, 0);
                Ok(ChunkData::Background(BackgroundData::Grayscale(g)))
            },
            ColorType::Truecolor | ColorType::TruecolorAlpha => {
                if length != 6 {
                    return Err(DecodeError::InvalidBackgroundLength);
                }
                let bytes = match self.cursor.read_n(6) {
                    Ok(v) => v,
                    Err(e) => { return Err(e) },
                };
                let red = be16_at(&bytes, 0);
                let green = be16_at(&bytes, 2);
                let blue = be16_at(&bytes, 4);
                Ok(ChunkData::Background(BackgroundData::RGB(red, green, blue)))
            },
            ColorType::Indexed => {
                if length != 1 {
                    return Err(DecodeError::InvalidBackgroundLength);
                }
                let n = match self.palette_entries {
                    Some(n) => n,
                    Option::None => { return Err(DecodeError::MissingPaletteState) },
                };
                let index = match self.cursor.read_u8() {
                    Ok(v) => v,
                    Err(e) => { return Err(e) },
                };
                if index as u32 >= n {
                    return Err(DecodeError::InvalidPaletteIndex);
                }
                Ok(ChunkData::Background(BackgroundData::PaletteIndex(index)))
            },
        }
    }

    /// Decodes a transparency payload ("tRNS"); alpha-bearing color models
    /// reject it whatever the declared length, the sample shapes demand
    /// their exact declared length, and under the indexed model every
    /// stored index must name a row of the already-decoded palette.  After
    /// the index bytes are read, an out-of-range index fails; every other
    /// failure consumes nothing.
    #[verifier::loop_isolation(false)]
    pub fn read_trns_chunk_data(&mut self, length: u32) -> (r: Result<ChunkData, DecodeError>)
        requires
            old(self).wf(),
        ensures
            final(self).wf(),
            final(self).input() == old(self).input(),
            final(self).chunks_seq() == old(self).chunks_seq(),
            old(self).position() <= final(self).position(),
            match spec_read_transparency(
                old(self).input(),
                old(self).position(),
                length,
                old(self).scan_state(),
            ) {
                Ok(step) => r is Ok && r->Ok_0@ == step.data && final(self).position() == step.end
                    && final(self).scan_state() == step.state,
                Err(e) => {
                    &&& r == Err::<ChunkData, DecodeError>(e)
                    &&& final(self).scan_state() == old(self).scan_state()
                    &&& final(self).position() == if e == DecodeError::InvalidPaletteIndex {
                        old(self).position() + length
                    } else {
                        old(self).position()
                    }
                },
            },
    {
        let color = match self.color_type {
            Some(c) => c,
            Option::None => { return Err(DecodeError::MissingHeaderState) },
        };
        match color {
            ColorType::GrayscaleAlpha | ColorType::TruecolorAlpha => Err(
                DecodeError::UnexpectedTransparencyChunk,
            ),
            ColorType::Grayscale => {
                if length != 2 {
                    return Err(DecodeError::InvalidTransparencyLength);
                }
                let bytes = match self.cursor.read_n(2) {
                    Ok(v) => v,
                    Err(e) => { return Err(e) },
                };
                let g = be16_at(&bytes, 0);
                Ok(ChunkData::Transparency(TransparencyData::Graysample(g)))
            },
            ColorType::Truecolor => {
                if length != 6 {
                    return Err(DecodeError::InvalidTransparencyLength);
                }
                let bytes = match self.cursor.read_n(6) {
                    Ok(v) => v,
                    Err(e) => { return Err(e) },
                };
                let red = be16_at(&bytes, 0);
                let green = be16_at(&bytes, 2);
                let blue = be16_at(&bytes, 4);
                Ok(ChunkData::Transparency(TransparencyData::RGB(red, green, blue)))
            },
            ColorType::Indexed => {
                let n = match self.palette_entries {
                    Some(n) => n,
                    Option::None => { return Err(DecodeError::MissingPaletteState) },
                };
                let indices = match self.cursor.read_n(length as usize) {
                    Ok(v) => v,
                    Err(e) => { return Err(e) },
                };
                let ghost s = old(self).input();
                let ghost p = old(self).position();
                let mut i: usize = 0;
                while i < indices.len()
                    invariant
                        i <= indices@.len(),
                        indices@.len() == length,
                        indices@ == s.subrange(p, p + length),
                        forall|j: int| 0 <= j < i ==> #[trigger] (indices@[j] as u32) < n,
                    decreases indices@.len() - i,
                {
                    if indices[i] as u32 >= n {
                        proof {
                            assert(indices@[i as int] == s[p + i]);
                            assert(s[p + i] as u32 >= n);
                        }
                        return Err(DecodeError::InvalidPaletteIndex);
                    }
                    i += 1;
                }
                proof {
                    assert forall|j: int| 0 <= j < length implies !(#[trigger] (s[p + j] as u32)
                        >= n) by {
                        assert(indices@[j] == s[p + j]);
                    }
                }
                Ok(ChunkData::Transparency(TransparencyData::PaletteIndices(indices)))
            },
        }
    }

    /// Decodes the payload of an unrecognised chunk type: `length` bytes
    /// kept opaquely, never silently skipped.
    fn read_unknown_chunk_data(&mut self, length: u32) -> (r: Result<ChunkData, DecodeError>)
        requires
            old(self).wf(),
        ensures
            final(self).wf(),
            final(self).input() == old(self).input(),
            final(self).chunks_seq() == old(self).chunks_seq(),
            old(self).position() <= final(self).position(),
            match spec_read_unknown(
                old(self).input(),
                old(self).position(),
                length,
                old(self).scan_state(),
            ) {
                Ok(step) => r is Ok && r->Ok_0@ == step.data && final(self).position() == step.end
                    && final(self).scan_state() == step.state,
                Err(e) => {
                    &&& r == Err::<ChunkData, DecodeError>(e)
                    &&& final(self).scan_state() == old(self).scan_state()
                    &&& final(self).position() == old(self).position()
                },
            },
    {
        let bytes = match self.cursor.read_n(length as usize) {
            Ok(v) => v,
            Err(e) => { return Err(e) },
        };
        Ok(ChunkData::Unknown(bytes))
    }

    /// Reads one whole chunk: 4-byte payload length, 4-byte tag, the
    /// dispatched payload, then the stored checksum, which must equal the
    /// one recomputed over the tag and the payload bytes actually read.
    /// Appends the completed chunk to the list.  The image header must be
    /// the very first chunk, so any other type before it is misordered.
    #[verifier::loop_isolation(false)]
    pub fn read_chunk(&mut self) -> (r: Result<(), DecodeError>)
        requires
            old(self).wf(),
        ensures
            final(self).wf(),
            final(self).input() == old(self).input(),
            old(self).position() <= final(self).position(),
            match spec_read_chunk(old(self).input(), old(self).position(), old(self).scan_state()) {
                Ok(step) => {
                    &&& r is Ok
                    &&& final(self).chunk_models() == old(self).chunk_models().push(step.chunk)
                    &&& final(self).position() == step.end
                    &&& final(self).position() == old(self).position() + 12 + step.chunk.length
                    &&& final(self).scan_state() == step.state
                },
                Err(e) => r == Err::<(), DecodeError>(e) && final(self).chunks_seq() == old(
                    self
                ).chunks_seq(),
            },
    {
        let ghost s = self.input();
        let ghost p = self.position();
        let length = match self.cursor.read_u32() {
            Ok(v) => v,
            Err(e) => { return Err(e) },
        };
        let tag = match self.cursor.read_n(4) {
            Ok(v) => v,
            Err(e) => { return Err(e) },
        };
        let ty = chunk_type_from_tag(&tag);
        if self.color_type.is_none() && ty != ChunkType::ImageHeader {
            return Err(DecodeError::MisorderedHeader);
        }
        let payload_start = self.cursor.current_position();
        let data = match (
            match ty {
                ChunkType::ImageHeader => self.read_ihdr_chunk_data(length),
                ChunkType::Palette => self.read_plte_chunk_data(length),
                ChunkType::ImageData => self.read_idat_chunk_data(length),
                ChunkType::ImageTrailer => if length != 0 {
                    Err(DecodeError::InvalidTrailerLength)
                } else {
                    Ok(ChunkData::ImageTrailer)
                },
                ChunkType::Gamma => self.read_gama_chunk_data(length),
                ChunkType::Background => self.read_bkgd_chunk_data(length),
                ChunkType::Transparency => self.read_trns_chunk_data(length),
                ChunkType::Unknown(_, _, _, _) => self.read_unknown_chunk_data(length),
            }
        ) {
            Ok(d) => d,
            Err(e) => { return Err(e) },
        };
        let payload_end = self.cursor.current_position();
        let payload = self.cursor.copy_range(payload_start, payload_end);
        let computed = chunk_crc(&tag, &payload);
        let stored = match self.cursor.read_u32() {
            Ok(v) => v,
            Err(e) => { return Err(e) },
        };
        if computed != stored {
            return Err(DecodeError::ChecksumMismatch);
        }
        let chunk = Chunk { length, ty, data, crc: stored };
        proof {
            lemma_chunk_step_bounds(s, p, old(self).scan_state());
            let step = spec_read_chunk(s, p, old(self).scan_state())->Ok_0;
            assert(chunk@ == step.chunk);
            assert(self.chunks@.push(chunk).map_values(|c: Chunk| c@) =~= self.chunk_models().push(
                chunk@,
            ));
        }
        self.chunks.push(chunk);
        Ok(())
    }

    /// Runs the whole decode pass: signature check first, then chunks until
    /// the trailer chunk ends the scan.  On success the ordered chunk list
    /// (available through `chunks`) models the stream exactly as
    /// `spec_decode` states, and the cursor stands just past the trailer's
    /// checksum: bytes after it are left unread and ignored.  On the first
    /// error the pass aborts with that error and no partial result is
    /// salvaged: the chunk list is left empty.
    #[verifier::loop_isolation(false)]
    pub fn decode(&mut self) -> (r: Result<(), DecodeError>)
        requires
            old(self).wf(),
            old(self).is_fresh(),
        ensures
            final(self).wf(),
            final(self).input() == old(self).input(),
            match spec_decode(old(self).input()) {
                Ok(cs) => r is Ok && final(self).chunk_models() == cs,
                Err(e) => r == Err::<(), DecodeError>(e),
            },
            r is Ok ==> {
                &&& final(self).chunk_models().len() > 0
                &&& final(self).chunk_models().first().ty == ChunkType::ImageHeader
                &&& final(self).chunk_models().last().ty == ChunkType::ImageTrailer
                &&& final(self).position() == 8 + spec_chunks_size(final(self).chunk_models())
            },
            r is Err ==> final(self).chunks_seq() == Seq::<Chunk>::empty(),
    {
        let ghost s = self.input();
        match self.read_signature() {
            Ok(()) => {},
            Err(e) => {
                self.chunks = Vec::new();
                proof {
                    assert(self.chunks_seq() =~= Seq::<Chunk>::empty());
                }
                return Err(e);
            },
        }
        match self.read_chunk() {
            Ok(()) => {},
            Err(e) => {
                self.chunks = Vec::new();
                proof {
                    assert(self.chunks_seq() =~= Seq::<Chunk>::empty());
                }
                return Err(e);
            },
        }
        proof {
            lemma_chunk_step_bounds(s, 8, initial_state());
            lemma_chunks_size_push(Seq::<ChunkModel>::empty(), spec_read_chunk(
                s,
                8,
                initial_state(),
            )->Ok_0.chunk);
            assert(spec_chunks_size(Seq::<ChunkModel>::empty()) == 0);
            assert(Seq::<Chunk>::empty().map_values(|c: Chunk| c@) =~= Seq::<ChunkModel>::empty());
            let step = spec_read_chunk(s, 8, initial_state())->Ok_0;
            assert(Seq::<ChunkModel>::empty().push(step.chunk) =~= seq![step.chunk]);
            assert(self.position() == 8 + spec_chunks_size(self.chunk_models()));
            if step.chunk.ty != ChunkType::ImageTrailer {
                if spec_scan(s, step.end, step.state) is Ok {
                    assert(seq![step.chunk] + spec_scan(s, step.end, step.state)->Ok_0
                        =~= self.chunk_models() + spec_scan(s, step.end, step.state)->Ok_0);
                }
            }
        }
        while self.chunks[self.chunks.len() - 1].ty != ChunkType::ImageTrailer
            invariant
                self.wf(),
                self.input() == s,
                self.chunk_models().len() >= 1,
                self.chunk_models().first().ty == ChunkType::ImageHeader,
                self.position() == 8 + spec_chunks_size(self.chunk_models()),
                if self.chunk_models().last().ty == ChunkType::ImageTrailer {
                    spec_scan(s, 8, initial_state()) == Ok::<Seq<ChunkModel>, DecodeError>(
                        self.chunk_models(),
                    )
                } else {
                    match spec_scan(s, self.position(), self.scan_state()) {
                        Ok(rest) => spec_scan(s, 8, initial_state()) == Ok::<
                            Seq<ChunkModel>,
                            DecodeError,
                        >(self.chunk_models() + rest),
                        Err(e) => spec_scan(s, 8, initial_state()) == Err::<
                            Seq<ChunkModel>,
                            DecodeError,
                        >(e),
                    }
                },
            decreases s.len() - self.position(),
        {
            let ghost p = self.position();
            let ghost st = self.scan_state();
            let ghost prefix = self.chunk_models();
            match self.read_chunk() {
                Ok(()) => {},
                Err(e) => {
                    self.chunks = Vec::new();
                    proof {
                        assert(self.chunks_seq() =~= Seq::<Chunk>::empty());
                    }
                    return Err(e);
                },
            }
            proof {
                lemma_chunk_step_bounds(s, p, st);
                let step = spec_read_chunk(s, p, st)->Ok_0;
                lemma_chunks_size_push(prefix, step.chunk);
                if step.chunk.ty == ChunkType::ImageTrailer {
                    assert(prefix + seq![step.chunk] =~= self.chunk_models());
                } else {
                    if spec_scan(s, step.end, step.state) is Ok {
                        let rest2 = spec_scan(s, step.end, step.state)->Ok_0;
                        assert(prefix + (seq![step.chunk] + rest2) =~= self.chunk_models() + rest2);
                    }
                }
            }
        }
        Ok(())
    }
}

/// Every successful scan ends with the trailer chunk, and when it started
/// with no color state (as the driver's scan does) its first chunk is the
/// image header.
proof fn lemma_scan_endpoints(s: Seq<u8>, pos: int, st: ScanState)
    requires
        0 <= pos <= s.len(),
        spec_scan(s, pos, st) is Ok,
    ensures
        spec_scan(s, pos, st)->Ok_0.len() > 0,
        spec_scan(s, pos, st)->Ok_0.last().ty == ChunkType::ImageTrailer,
        st.color is None ==> spec_scan(s, pos, st)->Ok_0.first().ty == ChunkType::ImageHeader,
    decreases s.len() - pos,
{
    lemma_chunk_step_bounds(s, pos, st);
    let step = spec_read_chunk(s, pos, st)->Ok_0;
    let cs = spec_scan(s, pos, st)->Ok_0;
    if step.chunk.ty == ChunkType::ImageTrailer {
        assert(cs == seq![step.chunk]);
    } else {
        lemma_scan_endpoints(s, step.end, step.state);
        let rest = spec_scan(s, step.end, step.state)->Ok_0;
        assert(cs == seq![step.chunk] + rest);
        assert(cs.last() == rest.last());
        assert(cs.first() == step.chunk);
    }
}

/// Law: a decode that succeeds yields a non-empty chunk sequence whose
/// first element is the image header and whose last is the trailer.
pub proof fn lemma_decode_endpoints(s: Seq<u8>)
    requires
        spec_decode(s) is Ok,
    ensures
        spec_decode(s)->Ok_0.len() > 0,
        spec_decode(s)->Ok_0.first().ty == ChunkType::ImageHeader,
        spec_decode(s)->Ok_0.last().ty == ChunkType::ImageTrailer,
{
    lemma_scan_endpoints(s, 8, initial_state());
}

/// Law: an input whose first 8 bytes differ from the magic sequence fails
/// with `MissingSignature`, whatever the remaining bytes hold.
pub proof fn lemma_signature_mismatch_rejected(s: Seq<u8>)
    requires
        s.len() >= 8,
        s.subrange(0, 8) != spec_signature(),
    ensures
        spec_decode(s) == Err::<Seq<ChunkModel>, DecodeError>(DecodeError::MissingSignature),
{
}

/// Law: an image-header chunk whose declared length is not 13 fails with
/// `InvalidHeaderLength`, independent of its field contents and of the
/// decoder's state.
pub proof fn lemma_header_length_rejected(s: Seq<u8>, pos: int, length: u32, st: ScanState)
    requires
        length != 13,
    ensures
        spec_read_header(s, pos, length, st) == Err::<PayloadStep, DecodeError>(
            DecodeError::InvalidHeaderLength,
        ),
{
}

/// Law: under an alpha-bearing color model a transparency chunk always
/// fails with `UnexpectedTransparencyChunk`, whatever its bytes.
pub proof fn lemma_transparency_alpha_rejected(s: Seq<u8>, pos: int, length: u32, st: ScanState)
    requires
        st.color == Some(ColorType::TruecolorAlpha) || st.color == Some(ColorType::GrayscaleAlpha),
    ensures
        spec_read_transparency(s, pos, length, st) == Err::<PayloadStep, DecodeError>(
            DecodeError::UnexpectedTransparencyChunk,
        ),
{
}

/// Law: under the indexed color model a successful background parse
/// consumes exactly one byte, the palette index it stores.
pub proof fn lemma_background_indexed_one_byte(s: Seq<u8>, pos: int, length: u32, st: ScanState)
    requires
        st.color == Some(ColorType::Indexed),
        spec_read_background(s, pos, length, st) is Ok,
    ensures
        spec_read_background(s, pos, length, st)->Ok_0.end == pos + 1,
        spec_read_background(s, pos, length, st)->Ok_0.data == ChunkDataModel::Background(
            BackgroundData::PaletteIndex(s[pos]),
        ),
{
}

/// Law: a palette chunk whose declared length is zero or not a multiple of
/// 3 fails with `InvalidPaletteLength` under every color model that admits
/// a palette at all.
pub proof fn lemma_palette_length_rejected(s: Seq<u8>, pos: int, length: u32, st: ScanState)
    requires
        st.color is Some,
        st.color != Some(ColorType::Grayscale),
        st.color != Some(ColorType::GrayscaleAlpha),
        length == 0 || length % 3 != 0,
    ensures
        spec_read_palette(s, pos, length, st) == Err::<PayloadStep, DecodeError>(
            DecodeError::InvalidPaletteLength,
        ),
{
}

/// Law: a chunk that reads its declared length of payload bytes (image
/// data here, and unknown chunks alike) fails with `UnexpectedEndOfInput`
/// whenever that length exceeds the remaining bytes.  The fixed-shape
/// decoders instead reject a declared length that disagrees with their
/// shape outright; either way truncated or over-declared input is a typed
/// error, never a crash.
pub proof fn lemma_data_truncated(s: Seq<u8>, pos: int, length: u32, st: ScanState)
    requires
        pos + length > s.len(),
    ensures
        spec_read_data(s, pos, length, st) == Err::<PayloadStep, DecodeError>(
            DecodeError::UnexpectedEndOfInput,
        ),
        spec_read_unknown(s, pos, length, st) == Err::<PayloadStep, DecodeError>(
            DecodeError::UnexpectedEndOfInput,
        ),
{
}

} // verus!
