use chunk_codec::{DecodeError, Material};

fn push_u32(out: &mut Vec<u8>, v: u32) {
    out.extend_from_slice(&v.to_le_bytes());
}

fn push_i32(out: &mut Vec<u8>, v: i32) {
    out.extend_from_slice(&v.to_le_bytes());
}

fn push_f32(out: &mut Vec<u8>, v: f32) {
    out.extend_from_slice(&v.to_bits().to_le_bytes());
}

/// The 96-byte fixed prefix, in stream order.
fn prefix_bytes() -> Vec<u8> {
    let mut out = Vec::new();
    push_u32(&mut out, 0x0000_0011); // flags
    push_u32(&mut out, 0xdead_beef); // name hash, read and discarded
    push_i32(&mut out, 1); // additive lighting model
    for c in [0.1f32, 0.2, 0.3, 1.0] {
        push_f32(&mut out, c); // colour
    }
    for c in [0.5f32, 0.5, 0.5, 1.0] {
        push_f32(&mut out, c); // specular
    }
    push_f32(&mut out, 16.0); // power
    push_i32(&mut out, 2); // shading mode
    push_i32(&mut out, 0); // blend
    push_i32(&mut out, 4); // blend source mode
    push_i32(&mut out, 5); // blend destination mode
    push_i32(&mut out, 1); // alpha test
    push_i32(&mut out, 6); // alpha comparison function
    push_f32(&mut out, 0.25); // alpha reference
    push_i32(&mut out, 1); // depth buffer write
    push_i32(&mut out, 3); // depth comparison mode
    push_u32(&mut out, 0xcafe_f00d); // material hash
    push_u32(&mut out, 77); // owner
    push_u32(&mut out, 0xf); // colour buffer write mask
    assert_eq!(out.len(), 96);
    out
}

/// A slot whose name length is non-positive: eight bytes, no texture.
fn empty_slot(uv_set: u32, name_len: i32) -> Vec<u8> {
    let mut out = Vec::new();
    push_u32(&mut out, uv_set);
    push_i32(&mut out, name_len);
    out
}

fn material_all_empty_slots() -> Vec<u8> {
    let mut out = prefix_bytes();
    for i in 0..5u32 {
        out.extend_from_slice(&empty_slot(40 + i, if i == 4 { -3 } else { 0 }));
    }
    for _ in 0..5 {
        push_i32(&mut out, 0); // no UV transform
    }
    for g in 0..5 {
        push_i32(&mut out, 90 + g); // generator codes
    }
    push_i32(&mut out, 2); // envmap type
    push_f32(&mut out, 123.5); // planar sheer envmap distance
    out
}

#[test]
fn all_slots_empty_keeps_uv_sets_and_hashes() {
    let bytes = material_all_empty_slots();
    let (m, pos) = Material::decode(&bytes, 0).unwrap();
    assert_eq!(pos, bytes.len());
    for i in 0..5 {
        assert!(m.textures[i].is_none());
        assert_eq!(m.attributes.uv_sets[i], 40 + i as u32);
        assert_eq!(m.attributes.texture_hashes[i], 0);
        assert!(!m.attributes.use_matrices[i]);
        assert_eq!(m.attributes.generators[i], 90 + i as i32);
    }
    assert_eq!(m.material_hash, 0xcafe_f00d);
    assert_eq!(m.attributes.flags, 0x11);
    assert!(m.attributes.additive_lighting_model);
    assert!(!m.attributes.blend);
    assert!(m.attributes.alpha_test);
    assert_eq!(m.attributes.blend_modes.source_mode, 4);
    assert_eq!(m.attributes.blend_modes.destination_mode, 5);
    assert_eq!(m.attributes.alpha_test_mode.comparison_function, 6);
    assert_eq!(f32::from_bits(m.attributes.alpha_test_mode.reference), 0.25);
    assert_eq!(m.attributes.shading_mode, 2);
    assert_eq!(f32::from_bits(m.attributes.power), 16.0);
    assert_eq!(m.attributes.owner, 77);
    assert_eq!(m.attributes.envmap_type, 2);
    assert_eq!(f32::from_bits(m.attributes.planar_sheer_envmap_distance), 123.5);
}

#[test]
fn structural_hash_is_pure() {
    let bytes1 = material_all_empty_slots();
    let bytes2 = material_all_empty_slots();
    let (m1, _) = Material::decode(&bytes1, 0).unwrap();
    let (m2, _) = Material::decode(&bytes2, 0).unwrap();
    assert_eq!(m1.get_hash(), m2.get_hash());
    assert_eq!(m1.get_hash(), m1.get_hash());

    // Changing a single byte inside the attribute block changes the hash.
    let mut changed = material_all_empty_slots();
    changed[0] ^= 0x40; // low byte of the flags word
    let (m3, _) = Material::decode(&changed, 0).unwrap();
    assert_ne!(m1.get_hash(), m3.get_hash());
}

#[test]
fn stream_hash_is_independent_of_structural_hash() {
    let bytes = material_all_empty_slots();
    let (m, _) = Material::decode(&bytes, 0).unwrap();
    // The stream-assigned identifier is kept as read, not recomputed.
    assert_ne!(m.get_hash(), m.material_hash);
    assert_eq!(m.material_hash, 0xcafe_f00d);
}

#[test]
fn slot_with_texture_and_transform() {
    let mut out = prefix_bytes();
    // Slot 0: a texture named "abc" written as one 32-bit code point per
    // character; the high bytes are discarded.
    push_u32(&mut out, 9); // uv set
    push_i32(&mut out, 3); // name length
    push_i32(&mut out, 0x1234_5661); // 'a' with junk in the high bytes
    push_i32(&mut out, 0x62); // 'b'
    push_i32(&mut out, 0x63); // 'c'
    push_i32(&mut out, 21); // format
    push_i32(&mut out, 22); // filter mode, read and discarded
    push_i32(&mut out, 23); // address mode
    push_i32(&mut out, 2); // mask name length
    push_i32(&mut out, 0x6d); // 'm'
    push_i32(&mut out, 0x6b); // 'k'
    for c in [0.0f32, 0.0, 0.0, 0.0] {
        push_f32(&mut out, c); // border colour
    }
    push_u32(&mut out, 0x5555_0001); // texture hash
    for i in 1..5u32 {
        out.extend_from_slice(&empty_slot(i, 0));
    }
    // Slot 0 carries a UV transform; the 16 entries are consumed.
    push_i32(&mut out, 1);
    for e in 0..16 {
        push_f32(&mut out, e as f32);
    }
    for _ in 1..5 {
        push_i32(&mut out, 0);
    }
    for _ in 0..5 {
        push_i32(&mut out, 0); // generators
    }
    push_i32(&mut out, 0); // envmap type
    push_f32(&mut out, 0.0); // planar sheer envmap distance
    let (m, pos) = Material::decode(&out, 0).unwrap();
    assert_eq!(pos, out.len());
    let t = m.textures[0].as_ref().unwrap();
    assert_eq!(t.uv_set, 9);
    assert_eq!(t.name, b"abc".to_vec());
    assert_eq!(t.format, 21);
    assert_eq!(t.address, 23);
    assert_eq!(t.mask_name, b"mk".to_vec());
    assert_eq!(t.hash, 0x5555_0001);
    assert_eq!(m.attributes.uv_sets[0], 9);
    assert_eq!(m.attributes.texture_hashes[0], 0x5555_0001);
    assert!(m.attributes.use_matrices[0]);
    for i in 1..5 {
        assert!(m.textures[i].is_none());
        assert!(!m.attributes.use_matrices[i]);
    }
}

#[test]
fn negative_mask_length_is_invalid() {
    let mut out = prefix_bytes();
    push_u32(&mut out, 0); // uv set
    push_i32(&mut out, 1); // name length
    push_i32(&mut out, 0x78); // 'x'
    push_i32(&mut out, 0); // format
    push_i32(&mut out, 0); // filter
    push_i32(&mut out, 0); // address
    push_i32(&mut out, -4); // mask name length
    assert!(matches!(
        Material::decode(&out, 0),
        Err(DecodeError::InvalidLength)
    ));
}

#[test]
fn truncated_prefix_is_a_short_read() {
    let bytes = prefix_bytes();
    assert!(matches!(
        Material::decode(&bytes[..95], 0),
        Err(DecodeError::ShortRead)
    ));
    // The full prefix alone still lacks the five slots.
    assert!(matches!(
        Material::decode(&bytes, 0),
        Err(DecodeError::ShortRead)
    ));
}
