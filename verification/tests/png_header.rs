use region_capture::png::{is_rgba8_of, read_header, Header, COLOR_RGBA, DEPTH_EIGHT, PREAMBLE_LEN};

fn preamble(width: u32, height: u32, depth: u8, color: u8, interlace: u8) -> Vec<u8> {
    let mut bytes = vec![137u8, 80, 78, 71, 13, 10, 26, 10];
    bytes.extend_from_slice(&[0, 0, 0, 13]);
    bytes.extend_from_slice(&[73, 72, 68, 82]);
    bytes.extend_from_slice(&width.to_be_bytes());
    bytes.extend_from_slice(&height.to_be_bytes());
    bytes.extend_from_slice(&[depth, color, 0, 0, interlace]);
    bytes.extend_from_slice(&[0xde, 0xad, 0xbe, 0xef]);
    bytes
}

#[test]
fn preamble_is_thirty_three_bytes() {
    assert_eq!(PREAMBLE_LEN, 33);
    assert_eq!(preamble(1, 1, 8, 6, 0).len(), 33);
}

#[test]
fn header_fields_are_read_highest_byte_first() {
    let bytes = preamble(0x0102_0304, 0x0a0b_0c0d, 8, 6, 0);
    assert_eq!(
        read_header(&bytes),
        Some(Header {
            width: 0x0102_0304,
            height: 0x0a0b_0c0d,
            bit_depth: 8,
            color_type: 6,
            interlaced: false,
        })
    );
}

#[test]
fn header_reads_full_range_dimensions() {
    let bytes = preamble(u32::MAX, 0, 16, 2, 1);
    assert_eq!(
        read_header(&bytes),
        Some(Header { width: u32::MAX, height: 0, bit_depth: 16, color_type: 2, interlaced: true })
    );
}

#[test]
fn header_ignores_what_follows_the_preamble() {
    let mut bytes = preamble(100, 100, 8, 6, 0);
    bytes.extend_from_slice(&[1, 2, 3, 4, 5]);
    assert_eq!(
        read_header(&bytes),
        Some(Header { width: 100, height: 100, bit_depth: 8, color_type: 6, interlaced: false })
    );
}

#[test]
fn truncated_stream_has_no_header() {
    let bytes = preamble(100, 100, 8, 6, 0);
    assert_eq!(read_header(&bytes[..32]), None);
    assert_eq!(read_header(&bytes[..8]), None);
    assert_eq!(read_header(&[]), None);
}

#[test]
fn wrong_signature_has_no_header() {
    for at in 0..8 {
        let mut bytes = preamble(100, 100, 8, 6, 0);
        bytes[at] ^= 1;
        assert_eq!(read_header(&bytes), None, "byte {at}");
    }
}

#[test]
fn wrong_chunk_length_or_type_has_no_header() {
    for at in 8..16 {
        let mut bytes = preamble(100, 100, 8, 6, 0);
        bytes[at] ^= 1;
        assert_eq!(read_header(&bytes), None, "byte {at}");
    }
}

#[test]
fn unknown_methods_have_no_header() {
    let mut compression = preamble(100, 100, 8, 6, 0);
    compression[26] = 1;
    assert_eq!(read_header(&compression), None);
    let mut filter = preamble(100, 100, 8, 6, 0);
    filter[27] = 1;
    assert_eq!(read_header(&filter), None);
    assert_eq!(read_header(&preamble(100, 100, 8, 6, 2)), None);
}

#[test]
fn rgba8_constants_are_those_of_the_format() {
    assert_eq!(DEPTH_EIGHT, 8);
    assert_eq!(COLOR_RGBA, 6);
}

#[test]
fn rgba8_of_exact_dimensions_is_recognised() {
    let bytes = preamble(100, 50, 8, 6, 0);
    assert!(is_rgba8_of(&bytes, 100, 50));
}

#[test]
fn other_dimensions_are_not_recognised() {
    let bytes = preamble(100, 50, 8, 6, 0);
    assert!(!is_rgba8_of(&bytes, 50, 100));
    assert!(!is_rgba8_of(&bytes, 100, 51));
    assert!(!is_rgba8_of(&bytes, 99, 50));
}

#[test]
fn other_pixel_formats_are_not_recognised() {
    assert!(!is_rgba8_of(&preamble(100, 50, 16, 6, 0), 100, 50));
    assert!(!is_rgba8_of(&preamble(100, 50, 8, 2, 0), 100, 50));
    assert!(!is_rgba8_of(&preamble(100, 50, 8, 6, 1), 100, 50));
    assert!(!is_rgba8_of(&[], 0, 0));
}
