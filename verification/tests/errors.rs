//! One malformed stream for every error variant of the taxonomy: each test
//! checks that the decoder fails fast with exactly the right error.

use png_chunks::crc::chunk_crc;
use png_chunks::decoder::Decoder;
use png_chunks::error::DecodeError;

fn signature() -> Vec<u8> {
    vec![137, 80, 78, 71, 13, 10, 26, 10]
}

fn push_u32(out: &mut Vec<u8>, x: u32) {
    out.push((x >> 24) as u8);
    out.push((x >> 16) as u8);
    out.push((x >> 8) as u8);
    out.push(x as u8);
}

fn chunk_bytes(tag: [u8; 4], payload: &[u8]) -> Vec<u8> {
    raw_chunk(payload.len() as u32, tag, payload)
}

fn raw_chunk(length: u32, tag: [u8; 4], payload: &[u8]) -> Vec<u8> {
    let mut out = Vec::new();
    push_u32(&mut out, length);
    out.extend_from_slice(&tag);
    out.extend_from_slice(payload);
    let crc = chunk_crc(&tag.to_vec(), &payload.to_vec());
    push_u32(&mut out, crc);
    out
}

fn header_payload(width: u32, height: u32, depth: u8, color: u8, interlace: u8) -> Vec<u8> {
    let mut p = Vec::new();
    push_u32(&mut p, width);
    push_u32(&mut p, height);
    p.push(depth);
    p.push(color);
    p.push(0);
    p.push(0);
    p.push(interlace);
    p
}

fn header_payload_full(depth: u8, color: u8, comp: u8, filt: u8, interlace: u8) -> Vec<u8> {
    let mut p = Vec::new();
    push_u32(&mut p, 1);
    push_u32(&mut p, 1);
    p.push(depth);
    p.push(color);
    p.push(comp);
    p.push(filt);
    p.push(interlace);
    p
}

fn stream(chunks: &[Vec<u8>]) -> Vec<u8> {
    let mut out = signature();
    for c in chunks {
        out.extend_from_slice(c);
    }
    out
}

fn decode_err(bytes: Vec<u8>) -> DecodeError {
    let mut d = Decoder::new(bytes);
    d.decode().expect_err("the stream is malformed")
}

#[test]
fn wrong_signature_fails_whatever_follows() {
    let mut bytes = vec![1, 2, 3, 4, 5, 6, 7, 8];
    bytes.extend_from_slice(&chunk_bytes(*b"IHDR", &header_payload(1, 1, 8, 0, 0)));
    assert_eq!(decode_err(bytes), DecodeError::MissingSignature);
    let mut almost = signature();
    almost[7] = 11;
    almost.extend_from_slice(&[200, 201, 202]);
    assert_eq!(decode_err(almost), DecodeError::MissingSignature);
}

#[test]
fn truncated_signature_is_end_of_input() {
    assert_eq!(decode_err(vec![137, 80, 78]), DecodeError::UnexpectedEndOfInput);
    assert_eq!(decode_err(Vec::new()), DecodeError::UnexpectedEndOfInput);
}

#[test]
fn header_length_other_than_13_is_rejected() {
    let bytes = stream(&[raw_chunk(12, *b"IHDR", &header_payload(1, 1, 8, 0, 0))]);
    assert_eq!(decode_err(bytes), DecodeError::InvalidHeaderLength);
    let bytes = stream(&[raw_chunk(14, *b"IHDR", &header_payload(1, 1, 8, 0, 0))]);
    assert_eq!(decode_err(bytes), DecodeError::InvalidHeaderLength);
}

#[test]
fn second_header_is_a_duplicate() {
    let bytes = stream(&[
        chunk_bytes(*b"IHDR", &header_payload(1, 1, 8, 0, 0)),
        chunk_bytes(*b"IHDR", &header_payload(1, 1, 8, 0, 0)),
    ]);
    assert_eq!(decode_err(bytes), DecodeError::DuplicateHeader);
}

#[test]
fn any_chunk_before_the_header_is_misordered() {
    let bytes = stream(&[
        chunk_bytes(*b"gAMA", &[0, 0, 177, 143]),
        chunk_bytes(*b"IHDR", &header_payload(1, 1, 8, 0, 0)),
    ]);
    assert_eq!(decode_err(bytes), DecodeError::MisorderedHeader);
}

#[test]
fn bit_depth_outside_the_five_values_is_rejected() {
    let bytes = stream(&[chunk_bytes(*b"IHDR", &header_payload(1, 1, 3, 0, 0))]);
    assert_eq!(decode_err(bytes), DecodeError::InvalidBitDepth);
}

#[test]
fn color_model_outside_the_five_codes_is_rejected() {
    let bytes = stream(&[chunk_bytes(*b"IHDR", &header_payload(1, 1, 8, 5, 0))]);
    assert_eq!(decode_err(bytes), DecodeError::InvalidColorModel);
}

#[test]
fn indexed_model_with_16_bit_depth_is_incompatible() {
    let bytes = stream(&[chunk_bytes(*b"IHDR", &header_payload(1, 1, 16, 3, 0))]);
    assert_eq!(decode_err(bytes), DecodeError::IncompatibleBitDepthForColorModel);
    let bytes = stream(&[chunk_bytes(*b"IHDR", &header_payload(1, 1, 4, 2, 0))]);
    assert_eq!(decode_err(bytes), DecodeError::IncompatibleBitDepthForColorModel);
}

#[test]
fn nonzero_compression_method_is_rejected() {
    let bytes = stream(&[chunk_bytes(*b"IHDR", &header_payload_full(8, 0, 1, 0, 0))]);
    assert_eq!(decode_err(bytes), DecodeError::InvalidCompressionMethod);
}

#[test]
fn nonzero_filter_method_is_rejected() {
    let bytes = stream(&[chunk_bytes(*b"IHDR", &header_payload_full(8, 0, 0, 1, 0))]);
    assert_eq!(decode_err(bytes), DecodeError::InvalidFilterMethod);
}

#[test]
fn interlace_method_above_one_is_rejected() {
    let bytes = stream(&[chunk_bytes(*b"IHDR", &header_payload(1, 1, 8, 0, 2))]);
    assert_eq!(decode_err(bytes), DecodeError::InvalidInterlaceMethod);
}

#[test]
fn palette_length_ten_is_rejected() {
    let bytes = stream(&[
        chunk_bytes(*b"IHDR", &header_payload(1, 1, 8, 2, 0)),
        chunk_bytes(*b"PLTE", &[0, 1, 2, 3, 4, 5, 6, 7, 8, 9]),
    ]);
    assert_eq!(decode_err(bytes), DecodeError::InvalidPaletteLength);
}

#[test]
fn empty_palette_is_rejected() {
    let bytes = stream(&[
        chunk_bytes(*b"IHDR", &header_payload(1, 1, 8, 2, 0)),
        chunk_bytes(*b"PLTE", &[]),
    ]);
    assert_eq!(decode_err(bytes), DecodeError::InvalidPaletteLength);
}

#[test]
fn palette_with_257_entries_is_rejected() {
    let payload = vec![0u8; 257 * 3];
    let bytes = stream(&[
        chunk_bytes(*b"IHDR", &header_payload(1, 1, 8, 2, 0)),
        chunk_bytes(*b"PLTE", &payload),
    ]);
    assert_eq!(decode_err(bytes), DecodeError::TooManyPaletteEntries);
}

#[test]
fn palette_under_grayscale_is_unexpected() {
    let bytes = stream(&[
        chunk_bytes(*b"IHDR", &header_payload(1, 1, 8, 0, 0)),
        chunk_bytes(*b"PLTE", &[1, 2, 3]),
    ]);
    assert_eq!(decode_err(bytes), DecodeError::UnexpectedPaletteChunk);
    let bytes = stream(&[
        chunk_bytes(*b"IHDR", &header_payload(1, 1, 8, 4, 0)),
        chunk_bytes(*b"PLTE", &[1, 2, 3]),
    ]);
    assert_eq!(decode_err(bytes), DecodeError::UnexpectedPaletteChunk);
}

#[test]
fn gamma_length_other_than_4_is_rejected() {
    let bytes = stream(&[
        chunk_bytes(*b"IHDR", &header_payload(1, 1, 8, 0, 0)),
        chunk_bytes(*b"gAMA", &[0, 0, 177, 143, 0]),
    ]);
    assert_eq!(decode_err(bytes), DecodeError::InvalidGammaLength);
}

#[test]
fn gamma_after_palette_or_data_is_misordered() {
    let bytes = stream(&[
        chunk_bytes(*b"IHDR", &header_payload(1, 1, 8, 2, 0)),
        chunk_bytes(*b"PLTE", &[1, 2, 3]),
        chunk_bytes(*b"gAMA", &[0, 0, 177, 143]),
    ]);
    assert_eq!(decode_err(bytes), DecodeError::MisorderedGamma);
    let bytes = stream(&[
        chunk_bytes(*b"IHDR", &header_payload(1, 1, 8, 0, 0)),
        chunk_bytes(*b"IDAT", &[0]),
        chunk_bytes(*b"gAMA", &[0, 0, 177, 143]),
    ]);
    assert_eq!(decode_err(bytes), DecodeError::MisorderedGamma);
}

#[test]
fn dependent_chunk_without_header_state_is_typed() {
    let mut d = Decoder::new(Vec::new());
    assert_eq!(d.read_bkgd_chunk_data(1), Err(DecodeError::MissingHeaderState));
    let mut d = Decoder::new(Vec::new());
    assert_eq!(d.read_trns_chunk_data(1), Err(DecodeError::MissingHeaderState));
    let mut d = Decoder::new(Vec::new());
    assert_eq!(d.read_plte_chunk_data(3), Err(DecodeError::MissingHeaderState));
}

#[test]
fn indexed_background_without_palette_state() {
    let bytes = stream(&[
        chunk_bytes(*b"IHDR", &header_payload(1, 1, 8, 3, 0)),
        chunk_bytes(*b"bKGD", &[0]),
    ]);
    assert_eq!(decode_err(bytes), DecodeError::MissingPaletteState);
}

#[test]
fn indexed_transparency_without_palette_state() {
    let bytes = stream(&[
        chunk_bytes(*b"IHDR", &header_payload(1, 1, 8, 3, 0)),
        chunk_bytes(*b"tRNS", &[0]),
    ]);
    assert_eq!(decode_err(bytes), DecodeError::MissingPaletteState);
}

#[test]
fn background_index_past_palette_is_invalid() {
    let bytes = stream(&[
        chunk_bytes(*b"IHDR", &header_payload(1, 1, 8, 3, 0)),
        chunk_bytes(*b"PLTE", &[1, 2, 3]),
        chunk_bytes(*b"bKGD", &[5]),
    ]);
    assert_eq!(decode_err(bytes), DecodeError::InvalidPaletteIndex);
}

#[test]
fn transparency_index_past_palette_is_invalid() {
    let bytes = stream(&[
        chunk_bytes(*b"IHDR", &header_payload(1, 1, 8, 3, 0)),
        chunk_bytes(*b"PLTE", &[1, 2, 3]),
        chunk_bytes(*b"tRNS", &[0, 3]),
    ]);
    assert_eq!(decode_err(bytes), DecodeError::InvalidPaletteIndex);
}

#[test]
fn transparency_under_alpha_models_is_unexpected() {
    let bytes = stream(&[
        chunk_bytes(*b"IHDR", &header_payload(1, 1, 8, 6, 0)),
        chunk_bytes(*b"tRNS", &[0, 0]),
    ]);
    assert_eq!(decode_err(bytes), DecodeError::UnexpectedTransparencyChunk);
    let bytes = stream(&[
        chunk_bytes(*b"IHDR", &header_payload(1, 1, 8, 4, 0)),
        chunk_bytes(*b"tRNS", &[0, 0]),
    ]);
    assert_eq!(decode_err(bytes), DecodeError::UnexpectedTransparencyChunk);
}

#[test]
fn background_length_must_match_its_shape() {
    // Grayscale dictates a 2-byte sample; declaring 1000 is rejected
    // outright, however few bytes remain.
    let bytes = stream(&[
        chunk_bytes(*b"IHDR", &header_payload(1, 1, 8, 0, 0)),
        raw_chunk(1000, *b"bKGD", &[0, 0]),
    ]);
    assert_eq!(decode_err(bytes), DecodeError::InvalidBackgroundLength);
    // The indexed model dictates exactly one index byte.
    let bytes = stream(&[
        chunk_bytes(*b"IHDR", &header_payload(1, 1, 8, 3, 0)),
        chunk_bytes(*b"PLTE", &[1, 2, 3]),
        raw_chunk(2, *b"bKGD", &[0, 0]),
    ]);
    assert_eq!(decode_err(bytes), DecodeError::InvalidBackgroundLength);
    // Truecolor dictates three 2-byte samples.
    let bytes = stream(&[
        chunk_bytes(*b"IHDR", &header_payload(1, 1, 8, 2, 0)),
        raw_chunk(5, *b"bKGD", &[0, 0, 0, 0, 0]),
    ]);
    assert_eq!(decode_err(bytes), DecodeError::InvalidBackgroundLength);
}

#[test]
fn transparency_length_must_match_its_shape() {
    let bytes = stream(&[
        chunk_bytes(*b"IHDR", &header_payload(1, 1, 8, 0, 0)),
        raw_chunk(3, *b"tRNS", &[0, 5, 0]),
    ]);
    assert_eq!(decode_err(bytes), DecodeError::InvalidTransparencyLength);
    let bytes = stream(&[
        chunk_bytes(*b"IHDR", &header_payload(1, 1, 8, 2, 0)),
        raw_chunk(2, *b"tRNS", &[0, 5]),
    ]);
    assert_eq!(decode_err(bytes), DecodeError::InvalidTransparencyLength);
}

#[test]
fn trailer_must_declare_zero_length() {
    let bytes = stream(&[
        chunk_bytes(*b"IHDR", &header_payload(1, 1, 8, 0, 0)),
        raw_chunk(5, *b"IEND", &[]),
    ]);
    assert_eq!(decode_err(bytes), DecodeError::InvalidTrailerLength);
}

#[test]
fn failed_decode_keeps_no_partial_chunks() {
    // The header decodes, the palette chunk then fails: the list must not
    // hand back the decoded prefix.
    let bytes = stream(&[
        chunk_bytes(*b"IHDR", &header_payload(1, 1, 8, 2, 0)),
        chunk_bytes(*b"PLTE", &[0, 1, 2, 3]),
    ]);
    let mut d = Decoder::new(bytes);
    assert_eq!(d.decode(), Err(DecodeError::InvalidPaletteLength));
    assert_eq!(d.chunks().len(), 0);
    // The signature path leaves the list empty too.
    let mut d = Decoder::new(vec![0, 1, 2, 3, 4, 5, 6, 7, 8]);
    assert_eq!(d.decode(), Err(DecodeError::MissingSignature));
    assert_eq!(d.chunks().len(), 0);
}

#[test]
fn declared_length_past_end_of_input() {
    let mut bytes = stream(&[chunk_bytes(*b"IHDR", &header_payload(1, 1, 8, 0, 0))]);
    // An image-data chunk declaring 100 payload bytes but holding 2.
    push_u32(&mut bytes, 100);
    bytes.extend_from_slice(b"IDAT");
    bytes.extend_from_slice(&[1, 2]);
    assert_eq!(decode_err(bytes), DecodeError::UnexpectedEndOfInput);
}

#[test]
fn missing_trailer_is_end_of_input() {
    let bytes = stream(&[chunk_bytes(*b"IHDR", &header_payload(1, 1, 8, 0, 0))]);
    assert_eq!(decode_err(bytes), DecodeError::UnexpectedEndOfInput);
}

#[test]
fn corrupted_checksum_is_a_mismatch() {
    let mut chunk = chunk_bytes(*b"IHDR", &header_payload(1, 1, 8, 0, 0));
    let last = chunk.len() - 1;
    chunk[last] = chunk[last].wrapping_add(1);
    let bytes = stream(&[chunk]);
    assert_eq!(decode_err(bytes), DecodeError::ChecksumMismatch);
}
