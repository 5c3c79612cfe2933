use chunk_codec::{ChunkHeader, ChunkType, DecodeError};

fn header_bytes(code: i32, size: i32, version: i32) -> Vec<u8> {
    let mut out = Vec::new();
    out.extend_from_slice(&code.to_le_bytes());
    out.extend_from_slice(&size.to_le_bytes());
    out.extend_from_slice(&version.to_le_bytes());
    out
}

#[test]
fn type_code_1010_is_materials() {
    let bytes = header_bytes(1010, 64, 2);
    let (h, pos) = ChunkHeader::decode(&bytes, 0).unwrap();
    assert!(matches!(h.get_chunk_type(), ChunkType::Materials));
    assert_eq!(h.get_size(), 64);
    assert_eq!(h.get_version(), 2);
    assert_eq!(pos, 12);
}

#[test]
fn type_code_999999_is_unrecognized() {
    let bytes = header_bytes(999999, 64, 2);
    assert!(matches!(
        ChunkHeader::decode(&bytes, 0),
        Err(DecodeError::UnrecognizedChunkType)
    ));
}

#[test]
fn known_type_codes_resolve() {
    assert!(matches!(ChunkType::from_code(20002), Some(ChunkType::Textures)));
    assert!(matches!(ChunkType::from_code(1012), Some(ChunkType::World)));
    assert!(matches!(ChunkType::from_code(1), Some(ChunkType::GLProject)));
    assert!(matches!(ChunkType::from_code(1002), Some(ChunkType::SPMesh)));
    assert!(ChunkType::from_code(0).is_none());
    assert!(ChunkType::from_code(-1010).is_none());
}

#[test]
fn header_short_reads() {
    // Fewer than four bytes: the type code itself cannot be read.
    assert!(matches!(
        ChunkHeader::decode(&[0xf2, 0x03], 0),
        Err(DecodeError::ShortRead)
    ));
    // A recognized code whose size and version are missing.
    let bytes = 1010i32.to_le_bytes();
    assert!(matches!(
        ChunkHeader::decode(&bytes, 0),
        Err(DecodeError::ShortRead)
    ));
}

#[test]
fn unrecognized_wins_over_missing_tail() {
    // The type code is read and resolved before size and version, so an
    // unknown code in a four-byte buffer is unrecognized, not a short read.
    let bytes = 999999i32.to_le_bytes();
    assert!(matches!(
        ChunkHeader::decode(&bytes, 0),
        Err(DecodeError::UnrecognizedChunkType)
    ));
}
