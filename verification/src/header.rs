//! The chunk header decoder: three signed 32-bit fields (type code, byte
//! size, version) whose type code is resolved against the closed set of known
//! chunk kinds. An unrecognized code is fatal: chunk boundaries cannot be
//! trusted without knowing how to decode the payload, so there is no
//! skip-by-size fallback.

use vstd::prelude::*;

use crate::err::DecodeError;
use crate::prim::{le32i, read_i32, SpecRes};

verus! {

/// The closed enumeration of chunk kinds the container can hold.
#[derive(Clone, Copy, Debug, PartialEq, Eq, Structural)]
pub enum ChunkType {
    Textures,
    Materials,
    MaterialObj,
    World,
    AnimLib,
    Entities,
    Entity,
    SpLights,
    Zones,
    NavigationMesh,
    WpPoints,
    SectorOctree,
    Occlusion,
    Area,
    SkinObj,
    BoneObj,
    OcclusionMesh,
    ModelGroup,
    SPMesh,
    Collision,
    AtomicMesh,
    GLCamera,
    GLProject,
    LightObj,
    LinkEmm,
    LevelObj,
}

/// The chunk kind a wire type code stands for, or `None` when the code
/// matches no known kind.
pub open spec fn spec_chunk_type(code: i32) -> Option<ChunkType> {
    match code {
        20002 => Some(ChunkType::Textures),
        1010 => Some(ChunkType::Materials),
        5 => Some(ChunkType::MaterialObj),
        1012 => Some(ChunkType::World),
        1017 => Some(ChunkType::AnimLib),
        20000 => Some(ChunkType::Entities),
        20001 => Some(ChunkType::Entity),
        1029 => Some(ChunkType::SpLights),
        1023 => Some(ChunkType::Zones),
        1021 => Some(ChunkType::NavigationMesh),
        1020 => Some(ChunkType::WpPoints),
        1011 => Some(ChunkType::SectorOctree),
        1019 => Some(ChunkType::Occlusion),
        1024 => Some(ChunkType::Area),
        1005 => Some(ChunkType::SkinObj),
        1001 => Some(ChunkType::BoneObj),
        1018 => Some(ChunkType::OcclusionMesh),
        1000 => Some(ChunkType::ModelGroup),
        1002 => Some(ChunkType::SPMesh),
        1003 => Some(ChunkType::Collision),
        1004 => Some(ChunkType::AtomicMesh),
        1006 => Some(ChunkType::GLCamera),
        1 => Some(ChunkType::GLProject),
        1007 => Some(ChunkType::LightObj),
        1026 => Some(ChunkType::LinkEmm),
        1009 => Some(ChunkType::LevelObj),
        _ => None,
    }
}

impl ChunkType {
    /// Resolves a wire type code against the closed enumeration.
    pub fn from_code(code: i32) -> (r: Option<ChunkType>)
        ensures
            r == spec_chunk_type(code),
    {
        match code {
            20002 => Some(ChunkType::Textures),
            1010 => Some(ChunkType::Materials),
            5 => Some(ChunkType::MaterialObj),
            1012 => Some(ChunkType::World),
            1017 => Some(ChunkType::AnimLib),
            20000 => Some(ChunkType::Entities),
            20001 => Some(ChunkType::Entity),
            1029 => Some(ChunkType::SpLights),
            1023 => Some(ChunkType::Zones),
            1021 => Some(ChunkType::NavigationMesh),
            1020 => Some(ChunkType::WpPoints),
            1011 => Some(ChunkType::SectorOctree),
            1019 => Some(ChunkType::Occlusion),
            1024 => Some(ChunkType::Area),
            1005 => Some(ChunkType::SkinObj),
            1001 => Some(ChunkType::BoneObj),
            1018 => Some(ChunkType::OcclusionMesh),
            1000 => Some(ChunkType::ModelGroup),
            1002 => Some(ChunkType::SPMesh),
            1003 => Some(ChunkType::Collision),
            1004 => Some(ChunkType::AtomicMesh),
            1006 => Some(ChunkType::GLCamera),
            1 => Some(ChunkType::GLProject),
            1007 => Some(ChunkType::LightObj),
            1026 => Some(ChunkType::LinkEmm),
            1009 => Some(ChunkType::LevelObj),
            _ => None,
        }
    }
}

/// The framing header of one chunk: resolved type, declared payload byte
/// length, and format version. `size` and `version` are passed through
/// uninterpreted to the payload decoder the type selects.
#[derive(Clone, Copy, Debug, PartialEq, Eq, Structural)]
pub struct ChunkHeader {
    pub chunk_type: ChunkType,
    pub size: i32,
    pub version: i32,
}

/// The header stored at `s[pos..pos + 12]`: a recognized type code followed
/// by size and version. The type code is read and resolved before size and
/// version, so a buffer holding only an unrecognized code fails with
/// `UnrecognizedChunkType`, not `ShortRead`.
pub open spec fn spec_chunk_header(s: Seq<u8>, pos: int) -> SpecRes<ChunkHeader> {
    if pos + 4 > s.len() {
        SpecRes::Fail(DecodeError::ShortRead)
    } else {
        match spec_chunk_type(le32i(s, pos)) {
            None => SpecRes::Fail(DecodeError::UnrecognizedChunkType),
            Some(t) => if pos + 12 > s.len() {
                SpecRes::Fail(DecodeError::ShortRead)
            } else {
                SpecRes::Found(
                    ChunkHeader {
                        chunk_type: t,
                        size: le32i(s, pos + 4),
                        version: le32i(s, pos + 8),
                    },
                    pos + 12,
                )
            },
        }
    }
}

impl ChunkHeader {
    /// Decodes one chunk header: type code, size, version, in that order.
    pub fn decode(bytes: &[u8], pos: usize) -> (r: Result<(ChunkHeader, usize), DecodeError>)
        ensures
            (match spec_chunk_header(bytes@, pos as int) {
                SpecRes::Found(h, p) => r matches Ok(t) && t.0 == h && t.1 == p,
                SpecRes::Fail(e) => r matches Err(e2) && e2 == e,
            }),
    {
        let (code, p1) = match read_i32(bytes, pos) {
            Ok(t) => t,
            Err(e) => {
                return Err(e);
            },
        };
        let chunk_type = match ChunkType::from_code(code) {
            Some(t) => t,
            None => {
                return Err(DecodeError::UnrecognizedChunkType);
            },
        };
        let (size, p2) = match read_i32(bytes, p1) {
            Ok(t) => t,
            Err(e) => {
                return Err(e);
            },
        };
        let (version, p3) = match read_i32(bytes, p2) {
            Ok(t) => t,
            Err(e) => {
                return Err(e);
            },
        };
        Ok((ChunkHeader { chunk_type, size, version }, p3))
    }

    /// The resolved chunk kind.
    pub fn get_chunk_type(&self) -> (r: &ChunkType)
        ensures
            r == &self.chunk_type,
    {
        &self.chunk_type
    }

    /// The declared payload length in bytes.
    pub fn get_size(&self) -> (r: i32)
        ensures
            r == self.size,
    {
        self.size
    }

    /// The chunk format version.
    pub fn get_version(&self) -> (r: i32)
        ensures
            r == self.version,
    {
        self.version
    }
}

} // verus!
