//! The world/floor decoder: global world attributes, a counted list of floor
//! records, then a fixed suffix of zone count and four presence booleans.

use vstd::prelude::*;

use crate::err::DecodeError;
use crate::prim::{
    le32, le32i, read_i32, read_u32, spec_bbox, spec_color3, BoundingBox, ColorBytes, SpecRes,
    lemma_many_extend, lemma_many_fail, spec_many,
};

verus! {

/// One floor record: an occlusion-BSP reference and the bounding volume the
/// ghost camera is confined to.
#[derive(Clone, Copy, Debug, PartialEq, Eq, Structural)]
pub struct Floor {
    pub occlusion_bsp: u32,
    pub ghost_camera: BoundingBox,
}

/// The floor record stored at `s[pos..pos + 28]`: reference first, then the
/// bounding box.
pub open spec fn spec_floor(s: Seq<u8>, pos: int) -> SpecRes<Floor> {
    if pos + 28 > s.len() {
        SpecRes::Fail(DecodeError::ShortRead)
    } else {
        SpecRes::Found(
            Floor { occlusion_bsp: le32(s, pos), ghost_camera: spec_bbox(s, pos + 4) },
            pos + 28,
        )
    }
}

/// The one-floor decoder, as a value usable with [`spec_many`].
pub open spec fn floor_decoder() -> spec_fn(Seq<u8>, int) -> SpecRes<Floor> {
    |s: Seq<u8>, pos: int| spec_floor(s, pos)
}

impl Floor {
    /// Builds a floor record from its two fields.
    pub fn new(occlusion_bsp: u32, ghost_camera: BoundingBox) -> (r: Floor)
        ensures
            r.occlusion_bsp == occlusion_bsp,
            r.ghost_camera == ghost_camera,
    {
        Floor { occlusion_bsp, ghost_camera }
    }

    /// Decodes one floor record: occlusion-BSP reference, then bounding box.
    pub fn decode(bytes: &[u8], pos: usize) -> (r: Result<(Floor, usize), DecodeError>)
        ensures
            (match spec_floor(bytes@, pos as int) {
                SpecRes::Found(fl, p) => r matches Ok(t) && t.0 == fl && t.1 == p,
                SpecRes::Fail(e) => r matches Err(e2) && e2 == e,
            }),
    {
        let (occlusion_bsp, p1) = match read_u32(bytes, pos) {
            Ok(t) => t,
            Err(e) => {
                return Err(e);
            },
        };
        let (ghost_camera, p2) = match BoundingBox::decode(bytes, p1) {
            Ok(t) => t,
            Err(e) => {
                return Err(e);
            },
        };
        Ok((Floor::new(occlusion_bsp, ghost_camera), p2))
    }
}

/// The decoded form of a world chunk, floors as a sequence.
pub struct WorldView {
    pub flags: u32,
    pub ambient: ColorBytes,
    pub floors: Seq<Floor>,
    pub zone_count: i32,
    pub have_occlusion_bsp: bool,
    pub have_nulls: bool,
    pub have_waypoints: bool,
    pub have_mesh: bool,
}

/// A world chunk: global flags, ambient color, the floor list, zone count and
/// four presence booleans for the optional trailing sections.
pub struct World {
    pub flags: u32,
    pub ambient: ColorBytes,
    pub floors: Vec<Floor>,
    pub zone_count: i32,
    pub have_occlusion_bsp: bool,
    pub have_nulls: bool,
    pub have_waypoints: bool,
    pub have_mesh: bool,
}

impl View for World {
    type V = WorldView;

    open spec fn view(&self) -> WorldView {
        WorldView {
            flags: self.flags,
            ambient: self.ambient,
            floors: self.floors@,
            zone_count: self.zone_count,
            have_occlusion_bsp: self.have_occlusion_bsp,
            have_nulls: self.have_nulls,
            have_waypoints: self.have_waypoints,
            have_mesh: self.have_mesh,
        }
    }
}

/// The world payload stored at `pos`: flags, a 3-byte ambient color, a signed
/// floor count, that many floor records, then zone count and four presence
/// words. A negative floor count can never be satisfied by the stream and
/// fails as a short read.
pub open spec fn spec_world(s: Seq<u8>, pos: int) -> SpecRes<WorldView> {
    if pos + 11 > s.len() {
        SpecRes::Fail(DecodeError::ShortRead)
    } else {
        let n = le32i(s, pos + 7);
        if n < 0 {
            SpecRes::Fail(DecodeError::ShortRead)
        } else {
            match spec_many(floor_decoder(), s, pos + 11, n as int) {
                SpecRes::Fail(e) => SpecRes::Fail(e),
                SpecRes::Found(fs, p) => if p + 20 > s.len() {
                    SpecRes::Fail(DecodeError::ShortRead)
                } else {
                    SpecRes::Found(
                        WorldView {
                            flags: le32(s, pos),
                            ambient: spec_color3(s, pos + 4),
                            floors: fs,
                            zone_count: le32i(s, p),
                            have_occlusion_bsp: le32i(s, p + 4) != 0,
                            have_nulls: le32i(s, p + 8) != 0,
                            have_waypoints: le32i(s, p + 12) != 0,
                            have_mesh: le32i(s, p + 16) != 0,
                        },
                        p + 20,
                    )
                },
            }
        }
    }
}

/// A world payload that declares zero floors decodes successfully whenever
/// its fixed prefix and suffix — 31 bytes in all — are present, yields an
/// empty floor sequence, and consumes exactly those 31 bytes.
pub proof fn lemma_world_zero_floors(s: Seq<u8>, pos: int)
    requires
        pos + 31 <= s.len(),
        le32i(s, pos + 7) == 0,
    ensures
        spec_world(s, pos) == SpecRes::Found(
            WorldView {
                flags: le32(s, pos),
                ambient: spec_color3(s, pos + 4),
                floors: Seq::<Floor>::empty(),
                zone_count: le32i(s, pos + 11),
                have_occlusion_bsp: le32i(s, pos + 15) != 0,
                have_nulls: le32i(s, pos + 19) != 0,
                have_waypoints: le32i(s, pos + 23) != 0,
                have_mesh: le32i(s, pos + 27) != 0,
            },
            pos + 31,
        ),
{
    assert(spec_many(floor_decoder(), s, pos + 11, 0) == SpecRes::Found(
        Seq::<Floor>::empty(),
        pos + 11,
    ));
}

impl World {
    /// Decodes a world payload; on success the returned position lies exactly
    /// past the fixed suffix.
    #[verifier::loop_isolation(false)]
    pub fn decode(bytes: &[u8], pos: usize) -> (r: Result<(World, usize), DecodeError>)
        ensures
            (match spec_world(bytes@, pos as int) {
                SpecRes::Found(w, p) => r matches Ok(t) && t.0@ == w && t.1 == p,
                SpecRes::Fail(e) => r matches Err(e2) && e2 == e,
            }),
    {
        let (flags, p1) = match read_u32(bytes, pos) {
            Ok(t) => t,
            Err(e) => {
                return Err(e);
            },
        };
        let (ambient, p2) = match ColorBytes::decode_u8_rgb(bytes, p1) {
            Ok(t) => t,
            Err(e) => {
                return Err(e);
            },
        };
        let (floor_count, p3) = match read_i32(bytes, p2) {
            Ok(t) => t,
            Err(e) => {
                return Err(e);
            },
        };
        if floor_count < 0 {
            return Err(DecodeError::ShortRead);
        }
        let ghost f = floor_decoder();
        let mut floors: Vec<Floor> = Vec::new();
        let mut cur: usize = p3;
        let mut i: i32 = 0;
        while i < floor_count
            invariant
                0 <= i <= floor_count,
                spec_many(f, bytes@, p3 as int, i as int) == SpecRes::Found(floors@, cur as int),
            decreases floor_count - i,
        {
            match Floor::decode(bytes, cur) {
                Ok((fl, q)) => {
                    proof {
                        lemma_many_extend(f, bytes@, p3 as int, i as int, floors@, cur as int);
                    }
                    floors.push(fl);
                    cur = q;
                    i = i + 1;
                },
                Err(e) => {
                    proof {
                        lemma_many_fail(
                            f,
                            bytes@,
                            p3 as int,
                            i as int,
                            floor_count as int,
                            floors@,
                            cur as int,
                            e,
                        );
                    }
                    return Err(e);
                },
            }
        }
        let (zone_count, q1) = match read_i32(bytes, cur) {
            Ok(t) => t,
            Err(e) => {
                return Err(e);
            },
        };
        let (w_occ, q2) = match read_i32(bytes, q1) {
            Ok(t) => t,
            Err(e) => {
                return Err(e);
            },
        };
        let (w_nulls, q3) = match read_i32(bytes, q2) {
            Ok(t) => t,
            Err(e) => {
                return Err(e);
            },
        };
        let (w_way, q4) = match read_i32(bytes, q3) {
            Ok(t) => t,
            Err(e) => {
                return Err(e);
            },
        };
        let (w_mesh, q5) = match read_i32(bytes, q4) {
            Ok(t) => t,
            Err(e) => {
                return Err(e);
            },
        };
        Ok((
            World {
                flags,
                ambient,
                floors,
                zone_count,
                have_occlusion_bsp: w_occ != 0,
                have_nulls: w_nulls != 0,
                have_waypoints: w_way != 0,
                have_mesh: w_mesh != 0,
            },
            q5,
        ))
    }
}

} // verus!
