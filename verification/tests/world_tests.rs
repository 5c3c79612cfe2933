use chunk_codec::{DecodeError, Floor, World};

fn floor_bytes(reference: u32, base: f32) -> Vec<u8> {
    let mut out = Vec::new();
    out.extend_from_slice(&reference.to_le_bytes());
    for c in [base, base + 1.0, base + 2.0, base + 3.0, base + 4.0, base + 5.0] {
        out.extend_from_slice(&c.to_bits().to_le_bytes());
    }
    out
}

fn world_prefix(flags: u32, ambient: [u8; 3], floor_count: i32) -> Vec<u8> {
    let mut out = Vec::new();
    out.extend_from_slice(&flags.to_le_bytes());
    out.extend_from_slice(&ambient);
    out.extend_from_slice(&floor_count.to_le_bytes());
    out
}

fn world_suffix(zone_count: i32, presence: [i32; 4]) -> Vec<u8> {
    let mut out = Vec::new();
    out.extend_from_slice(&zone_count.to_le_bytes());
    for w in presence {
        out.extend_from_slice(&w.to_le_bytes());
    }
    out
}

#[test]
fn zero_floors_consumes_exactly_the_fixed_bytes() {
    let mut bytes = world_prefix(7, [10, 20, 30], 0);
    bytes.extend_from_slice(&world_suffix(3, [1, 0, 2, 0]));
    assert_eq!(bytes.len(), 31);
    // Trailing bytes must be left untouched.
    bytes.extend_from_slice(&[0xde, 0xad]);
    let (w, pos) = World::decode(&bytes, 0).unwrap();
    assert_eq!(pos, 31);
    assert_eq!(w.flags, 7);
    assert_eq!(w.ambient.r, 10);
    assert_eq!(w.ambient.g, 20);
    assert_eq!(w.ambient.b, 30);
    assert_eq!(w.ambient.a, 0xff);
    assert!(w.floors.is_empty());
    assert_eq!(w.zone_count, 3);
    assert!(w.have_occlusion_bsp);
    assert!(!w.have_nulls);
    assert!(w.have_waypoints);
    assert!(!w.have_mesh);
}

#[test]
fn three_floors_truncated_fails_on_the_third() {
    let mut bytes = world_prefix(0, [0, 0, 0], 3);
    bytes.extend_from_slice(&floor_bytes(100, 0.0));
    bytes.extend_from_slice(&floor_bytes(200, 10.0));
    let third = floor_bytes(300, 20.0);
    bytes.extend_from_slice(&third[..third.len() - 1]);
    assert!(matches!(World::decode(&bytes, 0), Err(DecodeError::ShortRead)));
}

#[test]
fn two_full_floors_decode() {
    // The same two leading floors as in the truncated case decode cleanly,
    // showing the truncation failure above comes from the third record.
    let mut bytes = world_prefix(0, [0, 0, 0], 2);
    bytes.extend_from_slice(&floor_bytes(100, 0.0));
    bytes.extend_from_slice(&floor_bytes(200, 10.0));
    bytes.extend_from_slice(&world_suffix(0, [0, 0, 0, 0]));
    let (w, pos) = World::decode(&bytes, 0).unwrap();
    assert_eq!(w.floors.len(), 2);
    assert_eq!(w.floors[0].occlusion_bsp, 100);
    assert_eq!(w.floors[1].occlusion_bsp, 200);
    assert_eq!(f32::from_bits(w.floors[1].ghost_camera.min.x), 10.0);
    assert_eq!(f32::from_bits(w.floors[1].ghost_camera.max.z), 15.0);
    assert_eq!(pos, bytes.len());
}

#[test]
fn negative_floor_count_is_a_short_read() {
    let mut bytes = world_prefix(0, [0, 0, 0], -1);
    bytes.extend_from_slice(&world_suffix(0, [0, 0, 0, 0]));
    assert!(matches!(World::decode(&bytes, 0), Err(DecodeError::ShortRead)));
}

#[test]
fn floor_decode_and_new_agree() {
    let bytes = floor_bytes(42, 1.0);
    let (f, pos) = Floor::decode(&bytes, 0).unwrap();
    assert_eq!(pos, 28);
    assert_eq!(f.occlusion_bsp, 42);
    let g = Floor::new(f.occlusion_bsp, f.ghost_camera);
    assert_eq!(g.occlusion_bsp, f.occlusion_bsp);
    assert_eq!(g.ghost_camera, f.ghost_camera);
}
