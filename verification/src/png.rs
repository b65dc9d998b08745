//! The leading bytes of a PNG stream: its signature and its image header.

use vstd::prelude::*;

verus! {

/// Bytes from the start of a stream to the end of its image header chunk:
/// the signature (8), the chunk's length and type (4 and 4), its data (13)
/// and its checksum (4).
pub const PREAMBLE_LEN: usize = 33;

/// Bit depth of an image with eight bits for each channel.
pub const DEPTH_EIGHT: u8 = 8;

/// Colour type of an image with red, green, blue and alpha channels.
pub const COLOR_RGBA: u8 = 6;

/// What an image header chunk declares of its image.
#[derive(Clone, Copy, Debug, PartialEq, Eq, Structural)]
pub struct Header {
    pub width: u32,
    pub height: u32,
    pub bit_depth: u8,
    pub color_type: u8,
    pub interlaced: bool,
}

/// The four bytes from `at` on, read as one number, highest byte first.
pub open spec fn be32(bytes: Seq<u8>, at: int) -> int {
    bytes[at] * 0x100_0000 + bytes[at + 1] * 0x1_0000 + bytes[at + 2] * 0x100 + bytes[at + 3]
}

/// The stream opens with the eight bytes that mark a PNG.
pub open spec fn has_signature(bytes: Seq<u8>) -> bool {
    &&& bytes.len() >= 8
    &&& bytes[0] == 137
    &&& bytes[1] == 80
    &&& bytes[2] == 78
    &&& bytes[3] == 71
    &&& bytes[4] == 13
    &&& bytes[5] == 10
    &&& bytes[6] == 26
    &&& bytes[7] == 10
}

/// The first chunk after the signature is an image header: thirteen bytes of
/// data under the type `IHDR`, with the one compression method and the one
/// filter method that the format knows, and an interlace method that it
/// knows. The chunk's checksum must be there; its value is not looked at.
pub open spec fn has_header_chunk(bytes: Seq<u8>) -> bool {
    &&& bytes.len() >= PREAMBLE_LEN
    &&& be32(bytes, 8) == 13
    &&& bytes[12] == 73
    &&& bytes[13] == 72
    &&& bytes[14] == 68
    &&& bytes[15] == 82
    &&& bytes[26] == 0
    &&& bytes[27] == 0
    &&& bytes[28] <= 1
}

/// The image header of a stream, where the stream opens as a PNG does.
pub open spec fn header(bytes: Seq<u8>) -> Option<Header> {
    if has_signature(bytes) && has_header_chunk(bytes) {
        Some(
            Header {
                width: be32(bytes, 16) as u32,
                height: be32(bytes, 20) as u32,
                bit_depth: bytes[24],
                color_type: bytes[25],
                interlaced: bytes[28] == 1,
            },
        )
    } else {
        None
    }
}

/// The stream opens as a PNG whose header declares an image of exactly
/// these dimensions, with four channels of eight bits and no interlacing.
pub open spec fn declares_rgba8(bytes: Seq<u8>, width: u32, height: u32) -> bool {
    header(bytes) == Some(
        Header { width, height, bit_depth: DEPTH_EIGHT, color_type: COLOR_RGBA, interlaced: false },
    )
}

fn read_be32(bytes: &[u8], at: usize) -> (v: u32)
    requires
        at + 4 <= bytes@.len(),
    ensures
        v == be32(bytes@, at as int),
{
    let b0: u32 = bytes[at] as u32;
    let b1: u32 = bytes[at + 1] as u32;
    let b2: u32 = bytes[at + 2] as u32;
    let b3: u32 = bytes[at + 3] as u32;
    b0 * 0x100_0000 + b1 * 0x1_0000 + b2 * 0x100 + b3
}

fn starts_with_signature(bytes: &[u8]) -> (b: bool)
    ensures
        b == has_signature(bytes@),
{
    bytes.len() >= 8 && bytes[0] == 137 && bytes[1] == 80 && bytes[2] == 78 && bytes[3] == 71
        && bytes[4] == 13 && bytes[5] == 10 && bytes[6] == 26 && bytes[7] == 10
}

fn holds_header_chunk(bytes: &[u8]) -> (b: bool)
    ensures
        b == has_header_chunk(bytes@),
{
    bytes.len() >= PREAMBLE_LEN && read_be32(bytes, 8) == 13 && bytes[12] == 73 && bytes[13] == 72
        && bytes[14] == 68 && bytes[15] == 82 && bytes[26] == 0 && bytes[27] == 0 && bytes[28] <= 1
}

/// Reads the image header of a stream. `None` where the stream does not
/// open as a PNG does.
pub fn read_header(bytes: &[u8]) -> (r: Option<Header>)
    ensures
        r == header(bytes@),
{
    if starts_with_signature(bytes) && holds_header_chunk(bytes) {
        Some(
            Header {
                width: read_be32(bytes, 16),
                height: read_be32(bytes, 20),
                bit_depth: bytes[24],
                color_type: bytes[25],
                interlaced: bytes[28] == 1,
            },
        )
    } else {
        None
    }
}

/// Tells whether a stream opens as a PNG of exactly these dimensions, with
/// four channels of eight bits and no interlacing.
pub fn is_rgba8_of(bytes: &[u8], width: u32, height: u32) -> (b: bool)
    ensures
        b == declares_rgba8(bytes@, width, height),
{
    match read_header(bytes) {
        Some(h) => h.width == width && h.height == height && h.bit_depth == DEPTH_EIGHT
            && h.color_type == COLOR_RGBA && !h.interlaced,
        None => false,
    }
}

} // verus!
