//! Decoder for a legacy binary scene-asset container.
//!
//! The container is a sequence of tagged, versioned, length-prefixed chunks.
//! This crate decodes a chunk header and the three record payloads whose byte
//! layout varies at runtime: materials (optional texture slots), model parts
//! (flag-driven vertex records) and world/floor geometry.
//!
//! All decoding works over a byte slice and an explicit cursor position;
//! 32-bit floating-point fields on the wire are carried as their raw
//! little-endian bit patterns (`u32`), so that every decoder is a pure
//! function of the input bytes.

mod err;
mod hash;
mod header;
mod material;
mod model_part;
mod prim;
mod world;

pub use err::DecodeError;
pub use hash::{fnv1a, fnv1a_from, fnv1a_hash, fnv1a_step};
pub use header::{spec_chunk_header, spec_chunk_type, ChunkHeader, ChunkType};
pub use material::{
    attributes_bytes, lemma_material_all_slots_empty, lemma_structural_hash_pure, slot_name_len,
    spec_alpha_test_mode, spec_blend_modes, spec_material, spec_slot, spec_structural_hash,
    AlphaTestMode, Attributes, AttributesView, BlendModes, Material, MaterialTexture,
    MaterialTextureView, MaterialView, SlotView,
};
pub use model_part::{
    lemma_vertex_normal_presence, lemma_vertex_uv_count, spec_model_part, spec_vertex,
    vertex_size, ModelPart, ModelPartView, UvPair, Vertex, VertexView, HAS_DIFFUSE, HAS_INDICES,
    HAS_NORMAL, HAS_RECIPROCAL_HOMOGENEOUS_W, HAS_VERTEX, HAS_WEIGHT, UV_COUNT_MASK,
};
pub use prim::{
    le16, le32, le32i, lemma_many_extend, lemma_many_fail, lemma_many_split, read_i8, read_i16,
    read_i32, read_u16, read_u32, read_u8, spec_bbox, spec_color3, spec_color4, spec_many,
    spec_matrix, spec_rgba,
    spec_res_concat, spec_vec3, BoundingBox, ColorBytes, Matrix, Rgba, SpecRes, Vec3,
};
pub use world::{
    floor_decoder, lemma_world_zero_floors, spec_floor, spec_world, Floor, World, WorldView,
};
