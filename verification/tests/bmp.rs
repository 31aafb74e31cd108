use glutil::bmp::{
    decode, effective_image_size, read_le_u32, BitmapImage, DecodeError, HEADER_LEN,
    HEIGHT_OFFSET, IMAGE_SIZE_OFFSET, WIDTH_OFFSET,
};

/// A 54-byte header with the `"BM"` signature and the given fields.
fn header(width: u32, height: u32, image_size: u32) -> Vec<u8> {
    let mut h = vec![0u8; HEADER_LEN];
    h[0] = b'B';
    h[1] = b'M';
    h[WIDTH_OFFSET..WIDTH_OFFSET + 4].copy_from_slice(&width.to_le_bytes());
    h[HEIGHT_OFFSET..HEIGHT_OFFSET + 4].copy_from_slice(&height.to_le_bytes());
    h[IMAGE_SIZE_OFFSET..IMAGE_SIZE_OFFSET + 4].copy_from_slice(&image_size.to_le_bytes());
    h
}

#[test]
fn decodes_two_by_two_with_derived_size() {
    let mut bytes = header(2, 2, 0);
    let payload: Vec<u8> = (0u8..12u8).map(|b| b + 100).collect();
    bytes.extend_from_slice(&payload);
    let img: BitmapImage = decode(&bytes).unwrap();
    assert_eq!(img.width, 2);
    assert_eq!(img.height, 2);
    assert_eq!(img.pixels, payload);
}

#[test]
fn wrong_signature_is_rejected_regardless_of_content() {
    let mut bytes = header(2, 2, 0);
    bytes[0] = b'X';
    bytes[1] = b'X';
    assert_eq!(decode(&bytes), Err(DecodeError::InvalidSignature));

    // The rest of the content does not matter.
    let mut longer = bytes.clone();
    longer.extend_from_slice(&[1, 2, 3, 4, 5, 6, 7, 8]);
    assert_eq!(decode(&longer), Err(DecodeError::InvalidSignature));

    let mut one_wrong_byte = header(7, 9, 0);
    one_wrong_byte[1] = b'X';
    assert_eq!(decode(&one_wrong_byte), Err(DecodeError::InvalidSignature));
}

#[test]
fn short_input_is_truncated() {
    assert_eq!(decode(&[]), Err(DecodeError::Truncated));
    assert_eq!(decode(b"BM"), Err(DecodeError::Truncated));
    let exactly_one_short = vec![0u8; HEADER_LEN - 1];
    assert_eq!(decode(&exactly_one_short), Err(DecodeError::Truncated));
}

#[test]
fn truncation_is_checked_before_the_signature() {
    // Shorter than the header, even though it starts with "XX": still truncated.
    let bytes = [b'X', b'X', 0, 0, 0, 0, 0, 0];
    assert_eq!(decode(&bytes), Err(DecodeError::Truncated));
}

#[test]
fn header_with_no_payload_decodes_to_empty_pixels() {
    let bytes = header(0, 0, 0);
    let img = decode(&bytes).unwrap();
    assert_eq!(img.width, 0);
    assert_eq!(img.height, 0);
    assert_eq!(img.pixels, Vec::<u8>::new());
}

#[test]
fn payload_is_taken_verbatim_not_resized_to_declared_size() {
    // The header declares 100 payload bytes but only 3 follow: the decoder
    // hands back exactly what was there.
    let mut bytes = header(4, 4, 100);
    bytes.extend_from_slice(&[9, 8, 7]);
    let img = decode(&bytes).unwrap();
    assert_eq!(img.pixels, vec![9, 8, 7]);
}

#[test]
fn decode_error_classification_is_stable() {
    let truncated = vec![1u8, 2, 3];
    assert_eq!(decode(&truncated), decode(&truncated));

    let mut bad_signature = header(1, 1, 0);
    bad_signature[0] = b'Q';
    let first = decode(&bad_signature);
    let second = decode(&bad_signature);
    assert_eq!(first, Err(DecodeError::InvalidSignature));
    assert_eq!(first, second);
}

#[test]
fn little_endian_fields_are_assembled_from_bytes() {
    let bytes = [0x78u8, 0x56, 0x34, 0x12];
    assert_eq!(read_le_u32(&bytes, 0), 0x1234_5678);

    let mut with_offset = vec![0xFFu8; 3];
    with_offset.extend_from_slice(&[0x01, 0x00, 0x01, 0x00]);
    assert_eq!(read_le_u32(&with_offset, 3), 0x0001_0001);

    let max = [0xFFu8, 0xFF, 0xFF, 0xFF];
    assert_eq!(read_le_u32(&max, 0), u32::MAX);
}

#[test]
fn dimensions_come_from_the_fixed_offsets() {
    let bytes = header(640, 480, 0);
    let img = decode(&bytes).unwrap();
    assert_eq!(img.width, 640);
    assert_eq!(img.height, 480);
}

#[test]
fn declared_image_size_is_trusted_verbatim() {
    assert_eq!(effective_image_size(77, 2, 2), Some(77));
    assert_eq!(effective_image_size(1, 0, 0), Some(1));
}

#[test]
fn zero_image_size_is_derived_from_the_dimensions() {
    assert_eq!(effective_image_size(0, 2, 2), Some(12));
    assert_eq!(effective_image_size(0, 640, 480), Some(640 * 480 * 3));
    assert_eq!(effective_image_size(0, 0, 7), Some(0));
}

#[test]
fn derived_image_size_that_overflows_the_field_is_refused() {
    assert_eq!(effective_image_size(0, u32::MAX, u32::MAX), None);
    assert_eq!(effective_image_size(0, 0x4000_0000, 2), None);
}
