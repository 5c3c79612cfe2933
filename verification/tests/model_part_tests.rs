use chunk_codec::{
    DecodeError, ModelPart, Vertex, HAS_DIFFUSE, HAS_INDICES, HAS_NORMAL,
    HAS_RECIPROCAL_HOMOGENEOUS_W, HAS_VERTEX, HAS_WEIGHT,
};

fn push_u32(out: &mut Vec<u8>, v: u32) {
    out.extend_from_slice(&v.to_le_bytes());
}

fn push_f32(out: &mut Vec<u8>, v: f32) {
    out.extend_from_slice(&v.to_bits().to_le_bytes());
}

/// The 78-byte part header with the given vertex count and flags.
fn part_header(vertex_count: u32, flags: u32) -> Vec<u8> {
    let mut out = Vec::new();
    for w in [11u32, 12, 13, 14, 15, 16, 17, 18] {
        push_u32(&mut out, w); // the eight access/hint/constant flag words
    }
    push_u32(&mut out, vertex_count);
    out.extend_from_slice(&21u16.to_le_bytes()); // triangles
    out.extend_from_slice(&22u16.to_le_bytes()); // strips
    out.extend_from_slice(&23u16.to_le_bytes()); // strip triangles
    push_u32(&mut out, 0xaaaa_bbbb); // material hash
    for w in [-1i32, 100, -2, 200] {
        out.extend_from_slice(&w.to_le_bytes()); // index bounds
    }
    push_u32(&mut out, 5); // layer z
    push_u32(&mut out, 6); // floor flags
    push_u32(&mut out, flags);
    push_u32(&mut out, 7); // lighting sid
    assert_eq!(out.len(), 78);
    out
}

#[test]
fn normal_present_iff_bit_nine() {
    // Bit 9 set and no other optional field: exactly one vector follows.
    let mut bytes = part_header(1, HAS_NORMAL);
    for c in [1.0f32, 2.0, 3.0] {
        push_f32(&mut bytes, c);
    }
    let (p, pos) = ModelPart::decode(&bytes, 0).unwrap();
    assert_eq!(pos, bytes.len());
    let v = &p.vertices[0];
    let n = v.normal.as_ref().unwrap();
    assert_eq!(f32::from_bits(n.y), 2.0);
    assert!(v.vertex.is_none());
    assert!(v.reciprocal_homogeneous_w.is_none());
    assert!(v.diffuse.is_none());
    assert!(v.weight.is_none());
    assert!(v.indices.is_none());
    assert!(v.uvs.is_empty());

    // Every other presence bit set, bit 9 clear: no normal.
    let flags = HAS_VERTEX | HAS_RECIPROCAL_HOMOGENEOUS_W | HAS_DIFFUSE | HAS_WEIGHT | HAS_INDICES;
    let mut bytes = part_header(1, flags);
    for c in [9.0f32, 8.0, 7.0] {
        push_f32(&mut bytes, c); // position
    }
    push_u32(&mut bytes, 0x10); // reciprocal homogeneous w
    bytes.extend_from_slice(&[1, 2, 3, 4]); // diffuse r, g, b, a
    push_f32(&mut bytes, 0.5); // weight
    bytes.extend_from_slice(&300u16.to_le_bytes());
    bytes.extend_from_slice(&301u16.to_le_bytes());
    let (p, _) = ModelPart::decode(&bytes, 0).unwrap();
    let v = &p.vertices[0];
    assert!(v.normal.is_none());
    assert!(v.vertex.is_some());
    assert_eq!(v.reciprocal_homogeneous_w, Some(0x10));
    let d = v.diffuse.as_ref().unwrap();
    assert_eq!((d.r, d.g, d.b, d.a), (1, 2, 3, 4));
    assert_eq!(f32::from_bits(v.weight.unwrap()), 0.5);
    assert_eq!(v.indices, Some((300, 301)));
}

#[test]
fn uv_count_is_the_low_flag_byte() {
    // Two UV pairs, nothing else.
    let mut bytes = part_header(1, 2);
    for c in [0.25f32, 0.75, 0.5, 1.0] {
        push_f32(&mut bytes, c);
    }
    let (p, pos) = ModelPart::decode(&bytes, 0).unwrap();
    assert_eq!(pos, bytes.len());
    let v = &p.vertices[0];
    assert_eq!(v.uvs.len(), 2);
    assert_eq!(f32::from_bits(v.uvs[0].u), 0.25);
    assert_eq!(f32::from_bits(v.uvs[0].v), 0.75);
    assert_eq!(f32::from_bits(v.uvs[1].u), 0.5);
    assert_eq!(f32::from_bits(v.uvs[1].v), 1.0);
}

#[test]
fn zero_uv_count_reads_no_pairs() {
    let bytes = part_header(3, 0);
    // Three vertices under a flag word selecting nothing: zero extra bytes.
    let (p, pos) = ModelPart::decode(&bytes, 0).unwrap();
    assert_eq!(p.vertices.len(), 3);
    assert_eq!(pos, 78);
    assert!(p.vertices.iter().all(|v| v.uvs.is_empty() && v.vertex.is_none()));
}

#[test]
fn header_fields_in_order() {
    let bytes = part_header(0, HAS_VERTEX);
    let (p, pos) = ModelPart::decode(&bytes, 0).unwrap();
    assert_eq!(pos, 78);
    assert_eq!(p.read_access_flags, 11);
    assert_eq!(p.vertex_read_flags, 12);
    assert_eq!(p.write_access_flags, 13);
    assert_eq!(p.vertex_write_flags, 14);
    assert_eq!(p.hint_flags, 15);
    assert_eq!(p.constant_flags, 16);
    assert_eq!(p.vertex_flags, 17);
    assert_eq!(p.render_flags, 18);
    assert_eq!(p.triangles_count, 21);
    assert_eq!(p.strips_count, 22);
    assert_eq!(p.strip_triangles_count, 23);
    assert_eq!(p.material_hash, 0xaaaa_bbbb);
    assert_eq!(p.triangle_index0, -1);
    assert_eq!(p.triangle_index1, 100);
    assert_eq!(p.vertex_index0, -2);
    assert_eq!(p.vertex_index1, 200);
    assert_eq!(p.layer_z, 5);
    assert_eq!(p.floor_flags, 6);
    assert_eq!(p.flags, HAS_VERTEX);
    assert_eq!(p.lighting_sid, 7);
    assert!(p.vertices.is_empty());
}

#[test]
fn truncated_vertex_is_a_short_read() {
    let mut bytes = part_header(2, HAS_VERTEX);
    for c in [1.0f32, 2.0, 3.0] {
        push_f32(&mut bytes, c); // first vertex complete
    }
    push_f32(&mut bytes, 4.0); // second vertex cut short
    assert!(matches!(ModelPart::decode(&bytes, 0), Err(DecodeError::ShortRead)));
    assert!(matches!(
        ModelPart::decode(&bytes[..77], 0),
        Err(DecodeError::ShortRead)
    ));
}

#[test]
fn vertex_decodes_standalone() {
    let mut bytes = Vec::new();
    for c in [5.0f32, 6.0, 7.0] {
        push_f32(&mut bytes, c);
    }
    let (v, pos) = Vertex::decode(&bytes, 0, HAS_VERTEX).unwrap();
    assert_eq!(pos, 12);
    assert_eq!(f32::from_bits(v.vertex.unwrap().x), 5.0);
    assert!(matches!(
        Vertex::decode(&bytes, 0, HAS_VERTEX | HAS_NORMAL),
        Err(DecodeError::ShortRead)
    ));
}
