//! PNG encoding of a grabbed frame.
//!
//! The pixels are brought to RGBA8 and encoded by the `image` crate; what
//! comes back is handed on only where it declares the frame it was made
//! from.

use crate::error::EncodingFailure;
use crate::frame::PixelBuffer;
use crate::png::{declares_rgba8, is_rgba8_of};
use image::ImageEncoder;
use vstd::prelude::*;

verus! {

/// `image::ImageError`, the error that the encoder reports. Nothing is
/// claimed of it; it is carried to where its message is taken.
#[verifier::external_type_specification]
#[verifier::external_body]
pub struct ExImageError(image::ImageError);

/// What the PNG encoder of the `image` crate writes for a buffer of RGBA8
/// pixels of the given dimensions, with its default compression and filter:
/// the encoded bytes, or `None` where it reports an error.
pub uninterp spec fn png_encoding(pixels: Seq<u8>, width: u32, height: u32) -> Option<Seq<u8>>;

/// A container of `len` bytes is large enough for an RGBA8 image of the
/// given dimensions: four bytes for each pixel, counted in `usize` without
/// overflow, are no more than it holds.
pub open spec fn fits_container(width: u32, height: u32, len: nat) -> bool {
    PixelBuffer::row_len(width) <= usize::MAX && PixelBuffer::byte_len(width, height) <= len
}

/// Calls `image::DynamicImage::into_rgba8` on the RGBA8 image that
/// `image::ImageBuffer::from_raw` makes of the buffer, and takes the pixels
/// back out with `image::ImageBuffer::into_raw`.
///
/// Trusted: `from_raw` accepts the buffer exactly where four bytes for each
/// pixel, counted in `usize` without overflow, are no more than the buffer
/// holds; an image that is RGBA8 already is returned as it is, so the pixels
/// that come out are those that went in.
#[verifier::external_body]
fn into_rgba8(width: u32, height: u32, data: Vec<u8>) -> (r: Option<Vec<u8>>)
    ensures
        (r is Some) == fits_container(width, height, data@.len()),
        r matches Some(pixels) ==> pixels@ == data@,
{
    match image::RgbaImage::from_raw(width, height, data) {
        Some(rgba) => Some(image::DynamicImage::ImageRgba8(rgba).into_rgba8().into_raw()),
        None => None,
    }
}

/// Calls `image::codecs::png::PngEncoder::write_image` with the colour type
/// RGBA8 on an encoder that writes into memory.
///
/// Trusted: for given pixels and dimensions the encoder always writes the
/// same bytes, or always fails. It panics where the buffer's length is not
/// that of the dimensions, which the precondition rules out.
#[verifier::external_body]
fn write_png(pixels: &[u8], width: u32, height: u32) -> (r: Result<Vec<u8>, image::ImageError>)
    requires
        pixels@.len() == PixelBuffer::byte_len(width, height),
    ensures
        r matches Ok(bytes) ==> png_encoding(pixels@, width, height) == Some(bytes@),
        r is Err ==> png_encoding(pixels@, width, height) is None,
{
    let mut sink = std::io::Cursor::new(Vec::new());
    let encoder = image::codecs::png::PngEncoder::new(&mut sink);
    match encoder.write_image(pixels, width, height, image::ExtendedColorType::Rgba8) {
        Ok(()) => Ok(sink.into_inner()),
        Err(e) => Err(e),
    }
}

/// The frame can be handed to the encoder: it holds exactly the pixels of
/// its dimensions, and one row of them can be counted in `usize`.
pub open spec fn encodable(frame: PixelBuffer) -> bool {
    frame.is_packed() && PixelBuffer::row_len(frame.width) <= usize::MAX
}

/// What becomes of an encoder's answer for a frame of the given dimensions:
/// its bytes where they declare that frame, and otherwise the reason why
/// none are handed on.
pub open spec fn accepted(encoded: Result<Vec<u8>, String>, width: u32, height: u32) -> Result<
    Vec<u8>,
    EncodingFailure,
> {
    match encoded {
        Ok(bytes) => if declares_rgba8(bytes@, width, height) {
            Ok(bytes)
        } else {
            Err(EncodingFailure::HeaderMismatch)
        },
        Err(message) => Err(EncodingFailure::Rejected(message)),
    }
}

/// The PNG bytes that a capture of this frame returns, if it returns any.
pub open spec fn rgba8_png(frame: PixelBuffer) -> Option<Seq<u8>> {
    if encodable(frame) {
        match png_encoding(frame.data@, frame.width, frame.height) {
            Some(bytes) => if declares_rgba8(bytes, frame.width, frame.height) {
                Some(bytes)
            } else {
                None
            },
            None => None,
        }
    } else {
        None
    }
}

/// Decides what to make of an encoder's answer for a frame of the given
/// dimensions. Bytes are handed on unchanged where they open as a PNG that
/// declares exactly these dimensions with four channels of eight bits; an
/// error keeps the encoder's message.
pub fn accept_encoding(encoded: Result<Vec<u8>, String>, width: u32, height: u32) -> (r: Result<
    Vec<u8>,
    EncodingFailure,
>)
    ensures
        r == accepted(encoded, width, height),
        r matches Ok(bytes) ==> declares_rgba8(bytes@, width, height),
{
    match encoded {
        Ok(bytes) => {
            if is_rgba8_of(bytes.as_slice(), width, height) {
                Ok(bytes)
            } else {
                Err(EncodingFailure::HeaderMismatch)
            }
        },
        Err(message) => Err(EncodingFailure::Rejected(message)),
    }
}

/// `r` is what encoding this frame comes to: the bytes of `rgba8_png`, or
/// the one reason that applies for there being none. Of an error that the
/// encoder reports, the message is left open.
pub open spec fn encodes(frame: PixelBuffer, r: Result<Vec<u8>, EncodingFailure>) -> bool {
    let written = png_encoding(frame.data@, frame.width, frame.height);
    match r {
        Ok(bytes) => rgba8_png(frame) == Some(bytes@),
        Err(EncodingFailure::BufferMismatch) => !encodable(frame),
        Err(EncodingFailure::Rejected(_)) => encodable(frame) && written is None,
        Err(EncodingFailure::HeaderMismatch) => encodable(frame) && written is Some
            && !declares_rgba8(written->0, frame.width, frame.height),
    }
}

/// Encodes a frame as PNG: the pixels are brought to RGBA8, encoded with the
/// frame's own dimensions, and the result is handed on where it declares
/// those dimensions. A frame whose buffer does not match its dimensions
/// never reaches the encoder.
pub fn encode_frame(frame: PixelBuffer) -> (r: Result<Vec<u8>, EncodingFailure>)
    ensures
        encodes(frame, r),
        r is Ok <==> rgba8_png(frame) is Some,
        r matches Ok(bytes) ==> declares_rgba8(bytes@, frame.width, frame.height),
{
    let packed = frame.holds_all_pixels();
    let PixelBuffer { width, height, data } = frame;
    if !packed {
        return Err(EncodingFailure::BufferMismatch);
    }
    match into_rgba8(width, height, data) {
        None => Err(EncodingFailure::BufferMismatch),
        Some(pixels) => {
            let encoded = match write_png(pixels.as_slice(), width, height) {
                Ok(bytes) => Ok(bytes),
                Err(e) => Err(e.to_string()),
            };
            accept_encoding(encoded, width, height)
        },
    }
}

/// Encoding depends on the pixels and the dimensions alone: frames that
/// show the same picture encode to the same bytes, or neither encodes.
pub proof fn lemma_same_pixels_same_png(a: PixelBuffer, b: PixelBuffer)
    requires
        a.same_pixels(b),
    ensures
        rgba8_png(a) == rgba8_png(b),
{
}

} // verus!
