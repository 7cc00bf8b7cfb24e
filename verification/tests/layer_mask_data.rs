use psd::cursor::{PsdCursor, PsdLayerError};
use psd::mask::read_layer_mask_data;

/// Appends a 32-bit value in big-endian order.
fn push_u32(buf: &mut Vec<u8>, v: u32) {
    buf.extend_from_slice(&v.to_be_bytes());
}

/// Appends a 32-bit signed value in big-endian order.
fn push_i32(buf: &mut Vec<u8>, v: i32) {
    buf.extend_from_slice(&v.to_be_bytes());
}

/// A section body holding one 18-byte mask record in first-record order:
/// rectangle, default color, flags.
fn first_record_bytes(top: i32, left: i32, bottom: i32, right: i32, color: u8, flags: u8) -> Vec<u8> {
    let mut b = Vec::new();
    push_i32(&mut b, top);
    push_i32(&mut b, left);
    push_i32(&mut b, bottom);
    push_i32(&mut b, right);
    b.push(color);
    b.push(flags);
    b
}

/// A full buffer: length prefix, section body, then a sentinel byte that a
/// correct decode must leave unconsumed.
fn with_prefix_and_sentinel(body: &[u8]) -> Vec<u8> {
    let mut buf = Vec::new();
    push_u32(&mut buf, body.len() as u32);
    buf.extend_from_slice(body);
    buf.push(0xAB);
    buf
}

#[test]
fn short_sections_decode_to_nothing() {
    for declared_len in [0usize, 4, 15] {
        let body = vec![0x5Au8; declared_len];
        let mut cursor = PsdCursor::new(with_prefix_and_sentinel(&body));
        let data = read_layer_mask_data(&mut cursor).unwrap();
        assert!(data.vector_mask.is_none());
        assert!(data.raster_mask.is_none());
        // Exactly declared_len bytes were consumed beyond the prefix: the
        // sentinel is the next byte.
        assert_eq!(cursor.read_u8(), Ok(0xAB));
    }
}

#[test]
fn single_record_without_flags_is_raster() {
    let mut body = first_record_bytes(1, 2, 3, 4, 7, 0);
    body.extend_from_slice(&[9, 9]); // 2 bytes of slack, declared_len = 20
    let mut cursor = PsdCursor::new(with_prefix_and_sentinel(&body));
    let data = read_layer_mask_data(&mut cursor).unwrap();
    assert!(data.vector_mask.is_none());
    let raster = data.raster_mask.expect("raster mask present");
    assert_eq!(raster.top, 1);
    assert_eq!(raster.left, 2);
    assert_eq!(raster.bottom, 3);
    assert_eq!(raster.right, 4);
    assert_eq!(raster.default_color, 7);
    assert_eq!(raster.flags, 0);
    assert_eq!(raster.density, 255);
    assert_eq!(f64::from_bits(raster.feather), 0.0);
    assert_eq!(cursor.read_u8(), Ok(0xAB));
}

#[test]
fn single_record_rendered_from_other_data_is_vector() {
    let mut body = first_record_bytes(1, 2, 3, 4, 7, 0b0000_1000);
    body.extend_from_slice(&[9, 9]);
    let mut cursor = PsdCursor::new(with_prefix_and_sentinel(&body));
    let data = read_layer_mask_data(&mut cursor).unwrap();
    assert!(data.raster_mask.is_none());
    let vector = data.vector_mask.expect("vector mask present");
    assert_eq!(vector.top, 1);
    assert_eq!(vector.left, 2);
    assert_eq!(vector.bottom, 3);
    assert_eq!(vector.right, 4);
    assert_eq!(vector.default_color, 7);
    assert_eq!(vector.density, 255);
    assert_eq!(f64::from_bits(vector.feather), 0.0);
    assert_eq!(cursor.read_u8(), Ok(0xAB));
}

#[test]
fn two_records_with_slack() {
    // record 1 (18 bytes) + record 2 (18 bytes) + 2 bytes slack = 38.
    let mut body = first_record_bytes(1, 2, 3, 4, 7, 0);
    body.push(0b0000_0010); // record 2 flags first
    body.push(9); // record 2 default color
    push_i32(&mut body, 5);
    push_i32(&mut body, 6);
    push_i32(&mut body, -7);
    push_i32(&mut body, 8);
    body.extend_from_slice(&[1, 1]);
    assert_eq!(body.len(), 38);
    let mut cursor = PsdCursor::new(with_prefix_and_sentinel(&body));
    let data = read_layer_mask_data(&mut cursor).unwrap();

    let vector = data.vector_mask.expect("vector mask present");
    assert_eq!(vector.top, 1);
    assert_eq!(vector.left, 2);
    assert_eq!(vector.bottom, 3);
    assert_eq!(vector.right, 4);
    assert_eq!(vector.default_color, 7);
    assert_eq!(vector.flags, 0);
    assert_eq!(vector.density, 255);
    assert_eq!(f64::from_bits(vector.feather), 0.0);

    let raster = data.raster_mask.expect("raster mask present");
    assert_eq!(raster.top, 5);
    assert_eq!(raster.left, 6);
    assert_eq!(raster.bottom, -7);
    assert_eq!(raster.right, 8);
    assert_eq!(raster.default_color, 9);
    assert_eq!(raster.flags, 0b0000_0010);
    assert_eq!(raster.density, 255);
    assert_eq!(f64::from_bits(raster.feather), 0.0);

    // All 38 declared bytes, slack included, were consumed.
    assert_eq!(cursor.read_u8(), Ok(0xAB));
}

#[test]
fn parameter_block_overrides_raster_fields() {
    // One record whose flags announce a parameter block; the block gates
    // raster density and raster feather: 1 + 1 + 8 = 10 extra bytes.
    let mut body = first_record_bytes(1, 2, 3, 4, 7, 0b0001_0000);
    body.push(0b0000_0011); // parameter flags
    body.push(0x7F); // raster density
    body.extend_from_slice(&2.5f64.to_bits().to_be_bytes()); // raster feather
    assert_eq!(body.len(), 28);
    let mut cursor = PsdCursor::new(with_prefix_and_sentinel(&body));
    let data = read_layer_mask_data(&mut cursor).unwrap();
    assert!(data.vector_mask.is_none());
    let raster = data.raster_mask.expect("raster mask present");
    assert_eq!(raster.density, 0x7F);
    assert_eq!(f64::from_bits(raster.feather), 2.5);
    assert_eq!(cursor.read_u8(), Ok(0xAB));
}

#[test]
fn parameter_block_defaults_are_zero_not_255() {
    // Two records and a parameter block gating only the raster fields:
    // the vector mask keeps the in-block defaults of 0, not 255.
    let mut body = first_record_bytes(1, 2, 3, 4, 7, 0b0001_0000);
    body.push(0); // record 2 flags
    body.push(9); // record 2 default color
    push_i32(&mut body, 5);
    push_i32(&mut body, 6);
    push_i32(&mut body, 7);
    push_i32(&mut body, 8);
    body.push(0b0000_0011); // parameter flags
    body.push(0x7F); // raster density
    body.extend_from_slice(&2.5f64.to_bits().to_be_bytes()); // raster feather
    assert_eq!(body.len(), 46);
    let mut cursor = PsdCursor::new(with_prefix_and_sentinel(&body));
    let data = read_layer_mask_data(&mut cursor).unwrap();
    let vector = data.vector_mask.expect("vector mask present");
    assert_eq!(vector.density, 0);
    assert_eq!(f64::from_bits(vector.feather), 0.0);
    let raster = data.raster_mask.expect("raster mask present");
    assert_eq!(raster.density, 0x7F);
    assert_eq!(f64::from_bits(raster.feather), 2.5);
    assert_eq!(cursor.read_u8(), Ok(0xAB));
}

#[test]
fn parameter_block_gates_vector_fields() {
    // A lone record classified as vector, with the block gating the
    // vector fields only: 1 + 1 + 8 = 10 extra bytes.
    let mut body = first_record_bytes(1, 2, 3, 4, 7, 0b0001_1000);
    body.push(0b0000_1100); // parameter flags: vector density + feather
    body.push(0x40); // vector density
    body.extend_from_slice(&1.5f64.to_bits().to_be_bytes()); // vector feather
    assert_eq!(body.len(), 28);
    let mut cursor = PsdCursor::new(with_prefix_and_sentinel(&body));
    let data = read_layer_mask_data(&mut cursor).unwrap();
    assert!(data.raster_mask.is_none());
    let vector = data.vector_mask.expect("vector mask present");
    assert_eq!(vector.density, 0x40);
    assert_eq!(f64::from_bits(vector.feather), 1.5);
    assert_eq!(cursor.read_u8(), Ok(0xAB));
}

#[test]
fn height_is_bottom_minus_top() {
    let mut body = first_record_bytes(3, 0, 10, 0, 0, 0);
    body.extend_from_slice(&[0, 0]);
    let mut cursor = PsdCursor::new(with_prefix_and_sentinel(&body));
    let data = read_layer_mask_data(&mut cursor).unwrap();
    let raster = data.raster_mask.expect("raster mask present");
    assert_eq!(raster.height(), 7);
}

#[test]
fn height_is_negative_when_bottom_above_top() {
    let mut body = first_record_bytes(3, 0, -5, 0, 0, 0);
    body.extend_from_slice(&[0, 0]);
    let mut cursor = PsdCursor::new(with_prefix_and_sentinel(&body));
    let data = read_layer_mask_data(&mut cursor).unwrap();
    let raster = data.raster_mask.expect("raster mask present");
    assert_eq!(raster.height(), -8);
}

#[test]
fn flag_predicates_follow_their_bits() {
    let mut body = first_record_bytes(0, 0, 0, 0, 0, 0b0000_1111);
    body.extend_from_slice(&[0, 0]);
    let mut cursor = PsdCursor::new(with_prefix_and_sentinel(&body));
    let data = read_layer_mask_data(&mut cursor).unwrap();
    let mask = data.vector_mask.expect("bit 3 set: classified vector");
    assert!(mask.position_relative_to_layer());
    assert!(mask.layer_mask_disabled());
    assert!(mask.invert_layer_mask_when_blending());
    assert!(mask.user_mask_came_from_rendering_other_data());
    assert!(!mask.user_and_or_vector_masks_have_parameters_applied());

    let mut body = first_record_bytes(0, 0, 0, 0, 0, 0);
    body.extend_from_slice(&[0, 0]);
    let mut cursor = PsdCursor::new(with_prefix_and_sentinel(&body));
    let data = read_layer_mask_data(&mut cursor).unwrap();
    let mask = data.raster_mask.expect("no bits set: classified raster");
    assert!(!mask.position_relative_to_layer());
    assert!(!mask.layer_mask_disabled());
    assert!(!mask.invert_layer_mask_when_blending());
    assert!(!mask.user_mask_came_from_rendering_other_data());
    assert!(!mask.user_and_or_vector_masks_have_parameters_applied());
}

#[test]
fn missing_length_prefix_fails() {
    let mut cursor = PsdCursor::new(vec![0, 0, 0]);
    let err = read_layer_mask_data(&mut cursor).unwrap_err();
    assert_eq!(err, PsdLayerError::TruncatedOrMalformedSection);
}

#[test]
fn declared_bytes_missing_fails() {
    // The prefix declares 20 bytes but only 10 follow.
    let mut buf = Vec::new();
    push_u32(&mut buf, 20);
    buf.extend_from_slice(&[0u8; 10]);
    let mut cursor = PsdCursor::new(buf);
    let err = read_layer_mask_data(&mut cursor).unwrap_err();
    assert_eq!(err, PsdLayerError::TruncatedOrMalformedSection);
}

#[test]
fn short_section_with_missing_bytes_fails() {
    // Even a below-16 declared length must be covered by the buffer.
    let mut buf = Vec::new();
    push_u32(&mut buf, 15);
    buf.extend_from_slice(&[0u8; 3]);
    let mut cursor = PsdCursor::new(buf);
    let err = read_layer_mask_data(&mut cursor).unwrap_err();
    assert_eq!(err, PsdLayerError::TruncatedOrMalformedSection);
}

#[test]
fn declared_length_too_small_for_record_fails() {
    // 16 declared bytes cannot cover the 18-byte record, however long the
    // buffer is.
    let mut buf = Vec::new();
    push_u32(&mut buf, 16);
    buf.extend_from_slice(&[0u8; 40]);
    let mut cursor = PsdCursor::new(buf);
    let err = read_layer_mask_data(&mut cursor).unwrap_err();
    assert_eq!(err, PsdLayerError::TruncatedOrMalformedSection);
}

#[test]
fn declared_length_too_small_for_parameter_block_fails() {
    // 18 declared bytes, but the record's flags demand a parameter block
    // the declared length does not cover.
    let body = first_record_bytes(1, 2, 3, 4, 7, 0b0001_0000);
    let mut buf = Vec::new();
    push_u32(&mut buf, body.len() as u32);
    buf.extend_from_slice(&body);
    // Plenty of buffer behind the declared bytes.
    buf.extend_from_slice(&[0u8; 20]);
    let mut cursor = PsdCursor::new(buf);
    let err = read_layer_mask_data(&mut cursor).unwrap_err();
    assert_eq!(err, PsdLayerError::TruncatedOrMalformedSection);
}

#[test]
fn cursor_reads_big_endian_values() {
    let mut cursor = PsdCursor::new(vec![
        0x12, 0x34, 0x56, 0x78, // u32
        0xFF, 0xFF, 0xFF, 0xFE, // i32 = -2
        0x01, 0x02, 0x03, 0x04, 0x05, 0x06, 0x07, 0x08, // u64
        0x2A, // u8
    ]);
    assert_eq!(cursor.read_u32(), Ok(0x1234_5678));
    assert_eq!(cursor.read_i32(), Ok(-2));
    assert_eq!(cursor.read_u64(), Ok(0x0102_0304_0506_0708));
    assert_eq!(cursor.read_u8(), Ok(0x2A));
    assert_eq!(
        cursor.read_u8(),
        Err(PsdLayerError::TruncatedOrMalformedSection)
    );
}

#[test]
fn cursor_skip_consumes_exactly_n() {
    let mut cursor = PsdCursor::new(vec![1, 2, 3, 4, 5]);
    assert!(cursor.read(4).is_ok());
    assert_eq!(cursor.read_u8(), Ok(5));
    assert_eq!(
        cursor.read(1),
        Err(PsdLayerError::TruncatedOrMalformedSection)
    );
}
