use region_capture::encode::{accept_encoding, encode_frame};
use region_capture::error::EncodingFailure;
use region_capture::frame::{PixelBuffer, BYTES_PER_PIXEL};
use region_capture::png::{is_rgba8_of, read_header, Header};

fn gradient(width: u32, height: u32) -> PixelBuffer {
    let mut data = Vec::new();
    for y in 0..height {
        for x in 0..width {
            data.push((x * 7 + y) as u8);
            data.push((y * 3) as u8);
            data.push((x ^ y) as u8);
            data.push(255 - (x as u8 / 2));
        }
    }
    PixelBuffer { width, height, data }
}

#[test]
fn pixel_is_four_bytes() {
    assert_eq!(BYTES_PER_PIXEL, 4);
}

#[test]
fn packed_buffer_holds_four_bytes_a_pixel() {
    assert!(PixelBuffer { width: 2, height: 3, data: vec![0; 24] }.holds_all_pixels());
    assert!(!PixelBuffer { width: 2, height: 3, data: vec![0; 23] }.holds_all_pixels());
    assert!(!PixelBuffer { width: 2, height: 3, data: vec![0; 25] }.holds_all_pixels());
    assert!(!PixelBuffer { width: 2, height: 3, data: vec![0; 6] }.holds_all_pixels());
    assert!(PixelBuffer { width: 0, height: 3, data: vec![] }.holds_all_pixels());
    assert!(PixelBuffer { width: 1, height: 1, data: vec![1, 2, 3, 4] }.holds_all_pixels());
}

#[test]
fn packed_test_does_not_wrap_on_huge_dimensions() {
    // 4 * 2^31 * 2^31 is 2^64, which wraps to 0 in 64 bits.
    let frame = PixelBuffer { width: 1 << 31, height: 1 << 31, data: vec![] };
    assert!(!frame.holds_all_pixels());
    let frame = PixelBuffer { width: u32::MAX, height: u32::MAX, data: vec![0; 4] };
    assert!(!frame.holds_all_pixels());
}

#[test]
fn encoded_frame_declares_its_dimensions() {
    let bytes = encode_frame(gradient(5, 3)).expect("a packed frame encodes");
    assert_eq!(
        read_header(&bytes),
        Some(Header { width: 5, height: 3, bit_depth: 8, color_type: 6, interlaced: false })
    );
    assert!(is_rgba8_of(&bytes, 5, 3));
    assert_eq!(&bytes[..8], &[137, 80, 78, 71, 13, 10, 26, 10]);
}

#[test]
fn encoded_frame_decodes_to_the_same_pixels() {
    let frame = gradient(17, 9);
    let pixels = frame.data.clone();
    let bytes = encode_frame(frame).expect("a packed frame encodes");
    assert_ne!(bytes, pixels);
    let decoded = image::load_from_memory_with_format(&bytes, image::ImageFormat::Png)
        .expect("the output is a PNG");
    assert_eq!(decoded.color(), image::ColorType::Rgba8);
    assert_eq!((decoded.width(), decoded.height()), (17, 9));
    assert_eq!(decoded.into_rgba8().into_raw(), pixels);
}

#[test]
fn transparent_pixels_survive_encoding() {
    let frame = PixelBuffer { width: 2, height: 1, data: vec![10, 20, 30, 0, 40, 50, 60, 128] };
    let bytes = encode_frame(frame).expect("a packed frame encodes");
    let decoded = image::load_from_memory_with_format(&bytes, image::ImageFormat::Png)
        .expect("the output is a PNG");
    assert_eq!(decoded.into_rgba8().into_raw(), vec![10, 20, 30, 0, 40, 50, 60, 128]);
}

#[test]
fn encoding_is_repeatable() {
    let first = encode_frame(gradient(32, 32)).expect("a packed frame encodes");
    let second = encode_frame(gradient(32, 32)).expect("a packed frame encodes");
    assert_eq!(first, second);
}

#[test]
fn different_pixels_encode_differently() {
    let mut other = gradient(8, 8);
    other.data[0] ^= 0xff;
    let first = encode_frame(gradient(8, 8)).expect("a packed frame encodes");
    let second = encode_frame(other).expect("a packed frame encodes");
    assert_ne!(first, second);
}

#[test]
fn short_buffer_is_a_buffer_mismatch() {
    let frame = PixelBuffer { width: 2, height: 2, data: vec![0; 15] };
    assert_eq!(encode_frame(frame), Err(EncodingFailure::BufferMismatch));
}

#[test]
fn long_buffer_is_a_buffer_mismatch() {
    let frame = PixelBuffer { width: 2, height: 2, data: vec![0; 17] };
    assert_eq!(encode_frame(frame), Err(EncodingFailure::BufferMismatch));
}

#[test]
fn empty_frame_is_rejected_by_the_encoder() {
    let no_width = encode_frame(PixelBuffer { width: 0, height: 4, data: vec![] });
    assert_eq!(no_width, Err(EncodingFailure::Rejected(String::from("Zero width not allowed"))));
    let no_height = encode_frame(PixelBuffer { width: 4, height: 0, data: vec![] });
    assert_eq!(no_height, Err(EncodingFailure::Rejected(String::from("Zero height not allowed"))));
}

#[test]
fn accepted_bytes_are_handed_on_unchanged() {
    let bytes = encode_frame(gradient(4, 4)).expect("a packed frame encodes");
    assert_eq!(accept_encoding(Ok(bytes.clone()), 4, 4), Ok(bytes));
}

#[test]
fn bytes_that_declare_another_frame_are_refused() {
    let bytes = encode_frame(gradient(4, 4)).expect("a packed frame encodes");
    assert_eq!(accept_encoding(Ok(bytes.clone()), 4, 5), Err(EncodingFailure::HeaderMismatch));
    assert_eq!(accept_encoding(Ok(bytes), 5, 4), Err(EncodingFailure::HeaderMismatch));
    assert_eq!(accept_encoding(Ok(vec![]), 0, 0), Err(EncodingFailure::HeaderMismatch));
    assert_eq!(accept_encoding(Ok(vec![1, 2, 3]), 1, 1), Err(EncodingFailure::HeaderMismatch));
}

#[test]
fn encoder_error_keeps_its_message() {
    let message = String::from("out of memory");
    assert_eq!(
        accept_encoding(Err(message.clone()), 4, 4),
        Err(EncodingFailure::Rejected(message))
    );
}
