use chunk_codec::{
    fnv1a_hash, read_i16, read_i32, read_i8, read_u16, read_u32, read_u8, BoundingBox,
    DecodeError, Vec3,
};

#[test]
fn read_signed_narrow_widths() {
    let bytes = [0xff, 0x80, 0xff];
    assert_eq!(read_i8(&bytes, 0).unwrap(), (-1, 1));
    assert_eq!(read_i16(&bytes, 1).unwrap(), (-128, 3));
    assert!(matches!(read_i16(&bytes, 2), Err(DecodeError::ShortRead)));
}

#[test]
fn read_u32_little_endian() {
    let bytes = [0x78u8, 0x56, 0x34, 0x12, 0xaa];
    let (v, pos) = read_u32(&bytes, 0).unwrap();
    assert_eq!(v, 0x12345678);
    assert_eq!(pos, 4);
}

#[test]
fn read_u32_mid_buffer() {
    let bytes = [0xff, 0x01, 0x00, 0x00, 0x00];
    let (v, pos) = read_u32(&bytes, 1).unwrap();
    assert_eq!(v, 1);
    assert_eq!(pos, 5);
}

#[test]
fn read_u16_little_endian() {
    let bytes = [0xcd, 0xab];
    let (v, pos) = read_u16(&bytes, 0).unwrap();
    assert_eq!(v, 0xabcd);
    assert_eq!(pos, 2);
}

#[test]
fn read_i32_negative() {
    let bytes = [0xff, 0xff, 0xff, 0xff];
    let (v, _) = read_i32(&bytes, 0).unwrap();
    assert_eq!(v, -1);
}

#[test]
fn read_u8_and_short_reads() {
    let bytes = [7u8];
    assert_eq!(read_u8(&bytes, 0).unwrap(), (7, 1));
    assert!(matches!(read_u8(&bytes, 1), Err(DecodeError::ShortRead)));
    assert!(matches!(read_u16(&bytes, 0), Err(DecodeError::ShortRead)));
    assert!(matches!(read_u32(&bytes, 0), Err(DecodeError::ShortRead)));
    assert!(matches!(read_i32(&[], 0), Err(DecodeError::ShortRead)));
}

#[test]
fn vec3_components_in_order() {
    let mut bytes = Vec::new();
    bytes.extend_from_slice(&1.0f32.to_bits().to_le_bytes());
    bytes.extend_from_slice(&2.5f32.to_bits().to_le_bytes());
    bytes.extend_from_slice(&(-4.0f32).to_bits().to_le_bytes());
    let (v, pos) = Vec3::decode(&bytes, 0).unwrap();
    assert_eq!(f32::from_bits(v.x), 1.0);
    assert_eq!(f32::from_bits(v.y), 2.5);
    assert_eq!(f32::from_bits(v.z), -4.0);
    assert_eq!(pos, 12);
}

#[test]
fn bounding_box_min_then_max() {
    let mut bytes = Vec::new();
    for c in [0.0f32, 1.0, 2.0, 10.0, 11.0, 12.0] {
        bytes.extend_from_slice(&c.to_bits().to_le_bytes());
    }
    let (b, pos) = BoundingBox::decode(&bytes, 0).unwrap();
    assert_eq!(f32::from_bits(b.min.z), 2.0);
    assert_eq!(f32::from_bits(b.max.x), 10.0);
    assert_eq!(pos, 24);
    assert!(matches!(
        BoundingBox::decode(&bytes[..23], 0),
        Err(DecodeError::ShortRead)
    ));
}

#[test]
fn fnv1a_offset_basis_for_empty_input() {
    assert_eq!(fnv1a_hash(&[]), 0x811c9dc5);
}

#[test]
fn fnv1a_deterministic_and_sensitive() {
    let a = [1u8, 2, 3, 4, 5];
    let b = [1u8, 2, 3, 4, 5];
    let c = [1u8, 2, 9, 4, 5];
    assert_eq!(fnv1a_hash(&a), fnv1a_hash(&b));
    assert_ne!(fnv1a_hash(&a), fnv1a_hash(&c));
}
