//! The material decoder: a fixed-shape attribute block, five optional
//! texture slots, five optional UV transforms, five generator codes, two
//! trailing fields — and the structural hash computed over an explicit
//! serialization of the attribute block.

use vstd::prelude::*;

use crate::err::DecodeError;
use crate::hash::{fnv1a, fnv1a_hash};
use crate::prim::{
    le32, le32i, read_i32, read_u32, spec_rgba, Matrix, Rgba, SpecRes, lemma_many_extend,
    lemma_many_fail, spec_many,
};

verus! {

/// Source and destination blend mode codes.
#[derive(Clone, Copy, Debug, PartialEq, Eq, Structural)]
pub struct BlendModes {
    pub source_mode: i32,
    pub destination_mode: i32,
}

/// The blend mode pair stored at `s[i..i + 8]`, source first.
pub open spec fn spec_blend_modes(s: Seq<u8>, i: int) -> BlendModes {
    BlendModes { source_mode: le32i(s, i), destination_mode: le32i(s, i + 4) }
}

impl BlendModes {
    /// Decodes the source and destination blend mode codes, in that order.
    pub fn decode(bytes: &[u8], pos: usize) -> (r: Result<(BlendModes, usize), DecodeError>)
        ensures
            pos + 8 <= bytes@.len() ==> (r matches Ok(t) && t.0 == spec_blend_modes(
                bytes@,
                pos as int,
            ) && t.1 == pos + 8),
            pos + 8 > bytes@.len() ==> (r matches Err(e) && e == DecodeError::ShortRead),
    {
        let (source_mode, p1) = match read_i32(bytes, pos) {
            Ok(t) => t,
            Err(e) => {
                return Err(e);
            },
        };
        let (destination_mode, p2) = match read_i32(bytes, p1) {
            Ok(t) => t,
            Err(e) => {
                return Err(e);
            },
        };
        Ok((BlendModes { source_mode, destination_mode }, p2))
    }
}

/// The alpha-test sub-record: a comparison function code and a reference
/// value carried as the raw bit pattern of the wire float.
#[derive(Clone, Copy, Debug, PartialEq, Eq, Structural)]
pub struct AlphaTestMode {
    pub comparison_function: i32,
    pub reference: u32,
}

/// The alpha-test sub-record stored at `s[i..i + 8]`, function code first.
pub open spec fn spec_alpha_test_mode(s: Seq<u8>, i: int) -> AlphaTestMode {
    AlphaTestMode { comparison_function: le32i(s, i), reference: le32(s, i + 4) }
}

impl AlphaTestMode {
    /// Decodes the comparison function code, then the reference float bits.
    pub fn decode(bytes: &[u8], pos: usize) -> (r: Result<(AlphaTestMode, usize), DecodeError>)
        ensures
            pos + 8 <= bytes@.len() ==> (r matches Ok(t) && t.0 == spec_alpha_test_mode(
                bytes@,
                pos as int,
            ) && t.1 == pos + 8),
            pos + 8 > bytes@.len() ==> (r matches Err(e) && e == DecodeError::ShortRead),
    {
        let (comparison_function, p1) = match read_i32(bytes, pos) {
            Ok(t) => t,
            Err(e) => {
                return Err(e);
            },
        };
        let (reference, p2) = match read_u32(bytes, p1) {
            Ok(t) => t,
            Err(e) => {
                return Err(e);
            },
        };
        Ok((AlphaTestMode { comparison_function, reference }, p2))
    }
}

/// One texture-slot descriptor, present only when the slot's declared name
/// length is positive. Names hold one narrow character per 32-bit code point
/// read from the stream (the code point's low byte).
pub struct MaterialTexture {
    pub uv_set: u32,
    pub name: Vec<u8>,
    pub format: i32,
    pub address: i32,
    pub mask_name: Vec<u8>,
    pub border_colour: Rgba,
    pub hash: u32,
}

/// The decoded form of a texture-slot descriptor, names as byte sequences.
pub struct MaterialTextureView {
    pub uv_set: u32,
    pub name: Seq<u8>,
    pub format: i32,
    pub address: i32,
    pub mask_name: Seq<u8>,
    pub border_colour: Rgba,
    pub hash: u32,
}

impl View for MaterialTexture {
    type V = MaterialTextureView;

    open spec fn view(&self) -> MaterialTextureView {
        MaterialTextureView {
            uv_set: self.uv_set,
            name: self.name@,
            format: self.format,
            address: self.address,
            mask_name: self.mask_name@,
            border_colour: self.border_colour,
            hash: self.hash,
        }
    }
}

impl DeepView for MaterialTexture {
    type V = MaterialTextureView;

    open spec fn deep_view(&self) -> MaterialTextureView {
        self.view()
    }
}

/// One narrow name character: a 32-bit code point whose value is truncated
/// to its low byte, which in little-endian order is the code point's first
/// byte in the stream.
pub open spec fn spec_name_char(s: Seq<u8>, pos: int) -> SpecRes<u8> {
    if pos + 4 > s.len() {
        SpecRes::Fail(DecodeError::ShortRead)
    } else {
        SpecRes::Found(s[pos], pos + 4)
    }
}

/// The one-character decoder, as a value usable with [`spec_many`].
pub open spec fn name_char_decoder() -> spec_fn(Seq<u8>, int) -> SpecRes<u8> {
    |s: Seq<u8>, pos: int| spec_name_char(s, pos)
}

/// The low byte of a 32-bit little-endian word is its first stream byte.
proof fn lemma_low_byte(b0: u8, b1: u8, b2: u8, b3: u8)
    ensures
        (((b0 + b1 * 0x100 + b2 * 0x10000 + b3 * 0x1000000) as u32) as i32) as u8 == b0,
{
    assert((((b0 + b1 * 0x100 + b2 * 0x10000 + b3 * 0x1000000) as u32) as i32) as u8 == b0)
        by (bit_vector);
}

/// Reads `n` name characters: each one a 32-bit code point truncated to its
/// low byte.
#[verifier::loop_isolation(false)]
fn read_name_chars(bytes: &[u8], pos: usize, n: i32) -> (r: Result<(Vec<u8>, usize), DecodeError>)
    requires
        n >= 0,
    ensures
        (match spec_many(name_char_decoder(), bytes@, pos as int, n as int) {
            SpecRes::Found(cs, p) => r matches Ok(t) && t.0@ == cs && t.1 == p,
            SpecRes::Fail(e) => r matches Err(e2) && e2 == e,
        }),
{
    let ghost f = name_char_decoder();
    let mut name: Vec<u8> = Vec::new();
    let mut cur: usize = pos;
    let mut i: i32 = 0;
    while i < n
        invariant
            0 <= i <= n,
            spec_many(f, bytes@, pos as int, i as int) == SpecRes::Found(name@, cur as int),
        decreases n - i,
    {
        match read_i32(bytes, cur) {
            Ok((v, q)) => {
                proof {
                    lemma_many_extend(f, bytes@, pos as int, i as int, name@, cur as int);
                    lemma_low_byte(
                        bytes@[cur as int],
                        bytes@[cur as int + 1],
                        bytes@[cur as int + 2],
                        bytes@[cur as int + 3],
                    );
                }
                name.push(
                    #[verifier::truncate]
                    (v as u8),
                );
                cur = q;
                i = i + 1;
            },
            Err(e) => {
                proof {
                    lemma_many_fail(f, bytes@, pos as int, i as int, n as int, name@, cur as int, e);
                }
                return Err(e);
            },
        }
    }
    Ok((name, cur))
}

/// What one texture slot contributes: the always-read UV-set index, the
/// slot's texture hash (zero when no texture is present), and the optional
/// texture descriptor itself.
pub struct SlotView {
    pub uv_set: u32,
    pub hash: u32,
    pub texture: Option<MaterialTextureView>,
}

/// The texture slot stored at `pos`: a UV-set index and a signed name
/// length; a non-positive length ends the slot with no texture, a positive
/// one is followed by the name, format/filter/address codes, a second
/// length-prefixed mask name (whose declared length must be non-negative), a
/// border color and the texture hash.
pub open spec fn spec_slot(s: Seq<u8>, pos: int) -> SpecRes<SlotView> {
    if pos + 8 > s.len() {
        SpecRes::Fail(DecodeError::ShortRead)
    } else {
        let uv = le32(s, pos);
        let name_len = le32i(s, pos + 4);
        if name_len <= 0 {
            SpecRes::Found(SlotView { uv_set: uv, hash: 0, texture: None }, pos + 8)
        } else {
            match spec_many(name_char_decoder(), s, pos + 8, name_len as int) {
                SpecRes::Fail(e) => SpecRes::Fail(e),
                SpecRes::Found(name, p1) => {
                    if p1 + 16 > s.len() {
                        SpecRes::Fail(DecodeError::ShortRead)
                    } else {
                        let mask_len = le32i(s, p1 + 12);
                        if mask_len < 0 {
                            SpecRes::Fail(DecodeError::InvalidLength)
                        } else {
                            match spec_many(name_char_decoder(), s, p1 + 16, mask_len as int) {
                                SpecRes::Fail(e) => SpecRes::Fail(e),
                                SpecRes::Found(mask, p2) => {
                                    if p2 + 20 > s.len() {
                                        SpecRes::Fail(DecodeError::ShortRead)
                                    } else {
                                        SpecRes::Found(
                                            SlotView {
                                                uv_set: uv,
                                                hash: le32(s, p2 + 16),
                                                texture: Some(
                                                    MaterialTextureView {
                                                        uv_set: uv,
                                                        name: name,
                                                        format: le32i(s, p1),
                                                        address: le32i(s, p1 + 8),
                                                        mask_name: mask,
                                                        border_colour: spec_rgba(s, p2),
                                                        hash: le32(s, p2 + 16),
                                                    },
                                                ),
                                            },
                                            p2 + 20,
                                        )
                                    }
                                },
                            }
                        }
                    }
                },
            }
        }
    }
}

/// The one-slot decoder, as a value usable with [`spec_many`].
pub open spec fn slot_decoder() -> spec_fn(Seq<u8>, int) -> SpecRes<SlotView> {
    |s: Seq<u8>, pos: int| spec_slot(s, pos)
}

/// Decodes one texture slot, returning the UV-set index, the slot hash and
/// the optional texture descriptor.
fn decode_slot(bytes: &[u8], pos: usize) -> (r: Result<
    (u32, u32, Option<MaterialTexture>, usize),
    DecodeError,
>)
    ensures
        (match spec_slot(bytes@, pos as int) {
            SpecRes::Found(sl, p) => r matches Ok(t) && t.0 == sl.uv_set && t.1 == sl.hash
                && t.2.deep_view() == sl.texture && t.3 == p,
            SpecRes::Fail(e) => r matches Err(e2) && e2 == e,
        }),
{
    let (uv_set, p1) = match read_u32(bytes, pos) {
        Ok(t) => t,
        Err(e) => {
            return Err(e);
        },
    };
    let (name_len, p2) = match read_i32(bytes, p1) {
        Ok(t) => t,
        Err(e) => {
            return Err(e);
        },
    };
    if name_len <= 0 {
        return Ok((uv_set, 0, None, p2));
    }
    let (name, p3) = match read_name_chars(bytes, p2, name_len) {
        Ok(t) => t,
        Err(e) => {
            return Err(e);
        },
    };
    let (format, p4) = match read_i32(bytes, p3) {
        Ok(t) => t,
        Err(e) => {
            return Err(e);
        },
    };
    let (_filter, p5) = match read_i32(bytes, p4) {
        Ok(t) => t,
        Err(e) => {
            return Err(e);
        },
    };
    let (address, p6) = match read_i32(bytes, p5) {
        Ok(t) => t,
        Err(e) => {
            return Err(e);
        },
    };
    let (mask_len, p7) = match read_i32(bytes, p6) {
        Ok(t) => t,
        Err(e) => {
            return Err(e);
        },
    };
    if mask_len < 0 {
        return Err(DecodeError::InvalidLength);
    }
    let (mask_name, p8) = match read_name_chars(bytes, p7, mask_len) {
        Ok(t) => t,
        Err(e) => {
            return Err(e);
        },
    };
    let (border_colour, p9) = match Rgba::decode(bytes, p8) {
        Ok(t) => t,
        Err(e) => {
            return Err(e);
        },
    };
    let (hash, p10) = match read_u32(bytes, p9) {
        Ok(t) => t,
        Err(e) => {
            return Err(e);
        },
    };
    Ok((
        uv_set,
        hash,
        Some(MaterialTexture { uv_set, name, format, address, mask_name, border_colour, hash }),
        p10,
    ))
}

/// The matrix-presence entry stored at `pos`: a 32-bit presence word,
/// followed by a full transform exactly when the word is nonzero. The
/// decoded flag is the entry's value; the transform itself is consumed and
/// not retained.
pub open spec fn spec_matrix_flag(s: Seq<u8>, pos: int) -> SpecRes<bool> {
    if pos + 4 > s.len() {
        SpecRes::Fail(DecodeError::ShortRead)
    } else if le32i(s, pos) != 0 {
        if pos + 68 > s.len() {
            SpecRes::Fail(DecodeError::ShortRead)
        } else {
            SpecRes::Found(true, pos + 68)
        }
    } else {
        SpecRes::Found(false, pos + 4)
    }
}

/// The one-entry matrix-presence decoder, as a value usable with
/// [`spec_many`].
pub open spec fn matrix_flag_decoder() -> spec_fn(Seq<u8>, int) -> SpecRes<bool> {
    |s: Seq<u8>, pos: int| spec_matrix_flag(s, pos)
}

/// Decodes one matrix-presence entry, consuming the transform when present.
fn decode_matrix_flag(bytes: &[u8], pos: usize) -> (r: Result<(bool, usize), DecodeError>)
    ensures
        (match spec_matrix_flag(bytes@, pos as int) {
            SpecRes::Found(b, p) => r matches Ok(t) && t.0 == b && t.1 == p,
            SpecRes::Fail(e) => r matches Err(e2) && e2 == e,
        }),
{
    let (word, p1) = match read_i32(bytes, pos) {
        Ok(t) => t,
        Err(e) => {
            return Err(e);
        },
    };
    if word != 0 {
        let (_matrix, p2) = match Matrix::decode(bytes, p1) {
            Ok(t) => t,
            Err(e) => {
                return Err(e);
            },
        };
        Ok((true, p2))
    } else {
        Ok((false, p1))
    }
}

/// The generator code stored at `pos`: one signed 32-bit word, always
/// present, independent of the other per-slot presence flags.
pub open spec fn spec_generator(s: Seq<u8>, pos: int) -> SpecRes<i32> {
    if pos + 4 > s.len() {
        SpecRes::Fail(DecodeError::ShortRead)
    } else {
        SpecRes::Found(le32i(s, pos), pos + 4)
    }
}

/// The one-entry generator decoder, as a value usable with [`spec_many`].
pub open spec fn generator_decoder() -> spec_fn(Seq<u8>, int) -> SpecRes<i32> {
    |s: Seq<u8>, pos: int| spec_generator(s, pos)
}

/// The fixed-shape material attribute block. Field order and widths are a
/// compatibility contract: the structural hash is computed over exactly this
/// order with no padding, so reordering a field or changing a width changes
/// every content-derived hash. Float-valued fields hold the raw bit pattern
/// of the wire float.
pub struct Attributes {
    pub flags: u32,
    pub additive_lighting_model: bool,
    pub colour: Rgba,
    pub specular: Rgba,
    pub power: u32,
    pub shading_mode: i32,
    pub depth_buffer_write: bool,
    pub depth_buffer_comparison_mode: i32,
    pub blend: bool,
    pub blend_modes: BlendModes,
    pub alpha_test: bool,
    pub alpha_test_mode: AlphaTestMode,
    pub owner: u32,
    pub colour_buffer_write: u32,
    pub use_matrices: Vec<bool>,
    pub generators: Vec<i32>,
    pub uv_sets: Vec<u32>,
    pub texture_hashes: Vec<u32>,
    pub envmap_type: i32,
    pub planar_sheer_envmap_distance: u32,
}

/// The decoded form of an attribute block, per-slot arrays as sequences.
pub struct AttributesView {
    pub flags: u32,
    pub additive_lighting_model: bool,
    pub colour: Rgba,
    pub specular: Rgba,
    pub power: u32,
    pub shading_mode: i32,
    pub depth_buffer_write: bool,
    pub depth_buffer_comparison_mode: i32,
    pub blend: bool,
    pub blend_modes: BlendModes,
    pub alpha_test: bool,
    pub alpha_test_mode: AlphaTestMode,
    pub owner: u32,
    pub colour_buffer_write: u32,
    pub use_matrices: Seq<bool>,
    pub generators: Seq<i32>,
    pub uv_sets: Seq<u32>,
    pub texture_hashes: Seq<u32>,
    pub envmap_type: i32,
    pub planar_sheer_envmap_distance: u32,
}

impl View for Attributes {
    type V = AttributesView;

    open spec fn view(&self) -> AttributesView {
        AttributesView {
            flags: self.flags,
            additive_lighting_model: self.additive_lighting_model,
            colour: self.colour,
            specular: self.specular,
            power: self.power,
            shading_mode: self.shading_mode,
            depth_buffer_write: self.depth_buffer_write,
            depth_buffer_comparison_mode: self.depth_buffer_comparison_mode,
            blend: self.blend,
            blend_modes: self.blend_modes,
            alpha_test: self.alpha_test,
            alpha_test_mode: self.alpha_test_mode,
            owner: self.owner,
            colour_buffer_write: self.colour_buffer_write,
            use_matrices: self.use_matrices@,
            generators: self.generators@,
            uv_sets: self.uv_sets@,
            texture_hashes: self.texture_hashes@,
            envmap_type: self.envmap_type,
            planar_sheer_envmap_distance: self.planar_sheer_envmap_distance,
        }
    }
}

impl Attributes {
    /// Each per-slot array holds exactly one entry per texture slot.
    pub open spec fn wf(&self) -> bool {
        self.use_matrices@.len() == 5 && self.generators@.len() == 5 && self.uv_sets@.len() == 5
            && self.texture_hashes@.len() == 5
    }
}

/// A decoded material: its stream-assigned hash, the attribute block, and
/// the five texture slots (a slot without a texture stays `None`).
pub struct Material {
    pub material_hash: u32,
    pub attributes: Attributes,
    pub textures: Vec<Option<MaterialTexture>>,
}

/// The decoded form of a material.
pub struct MaterialView {
    pub material_hash: u32,
    pub attributes: AttributesView,
    pub textures: Seq<Option<MaterialTextureView>>,
}

impl View for Material {
    type V = MaterialView;

    open spec fn view(&self) -> MaterialView {
        MaterialView {
            material_hash: self.material_hash,
            attributes: self.attributes@,
            textures: self.textures.deep_view(),
        }
    }
}

impl Material {
    /// The attribute block is well formed and there is one slot entry per
    /// texture slot.
    pub open spec fn wf(&self) -> bool {
        self.attributes.wf() && self.textures@.len() == 5
    }
}

/// The material payload stored at `pos`: the 96-byte fixed prefix (whose
/// name-hash word at offset 4 is read and discarded), five texture slots,
/// five matrix-presence entries, five generator codes, then the environment
/// map type and the planar-sheer distance. Each slot's UV-set index and hash
/// are recorded in the attribute block's per-slot arrays whether or not the
/// slot carries a texture.
pub open spec fn spec_material(s: Seq<u8>, pos: int) -> SpecRes<MaterialView> {
    if pos + 96 > s.len() {
        SpecRes::Fail(DecodeError::ShortRead)
    } else {
        match spec_many(slot_decoder(), s, pos + 96, 5) {
            SpecRes::Fail(e) => SpecRes::Fail(e),
            SpecRes::Found(slots, p1) => match spec_many(matrix_flag_decoder(), s, p1, 5) {
                SpecRes::Fail(e) => SpecRes::Fail(e),
                SpecRes::Found(use_ms, p2) => match spec_many(generator_decoder(), s, p2, 5) {
                    SpecRes::Fail(e) => SpecRes::Fail(e),
                    SpecRes::Found(gens, p3) => if p3 + 8 > s.len() {
                        SpecRes::Fail(DecodeError::ShortRead)
                    } else {
                        SpecRes::Found(
                            MaterialView {
                                material_hash: le32(s, pos + 84),
                                attributes: AttributesView {
                                    flags: le32(s, pos),
                                    additive_lighting_model: le32i(s, pos + 8) != 0,
                                    colour: spec_rgba(s, pos + 12),
                                    specular: spec_rgba(s, pos + 28),
                                    power: le32(s, pos + 44),
                                    shading_mode: le32i(s, pos + 48),
                                    depth_buffer_write: le32i(s, pos + 76) != 0,
                                    depth_buffer_comparison_mode: le32i(s, pos + 80),
                                    blend: le32i(s, pos + 52) != 0,
                                    blend_modes: spec_blend_modes(s, pos + 56),
                                    alpha_test: le32i(s, pos + 64) != 0,
                                    alpha_test_mode: spec_alpha_test_mode(s, pos + 68),
                                    owner: le32(s, pos + 88),
                                    colour_buffer_write: le32(s, pos + 92),
                                    use_matrices: use_ms,
                                    generators: gens,
                                    uv_sets: slots.map_values(|sl: SlotView| sl.uv_set),
                                    texture_hashes: slots.map_values(|sl: SlotView| sl.hash),
                                    envmap_type: le32i(s, p3),
                                    planar_sheer_envmap_distance: le32(s, p3 + 4),
                                },
                                textures: slots.map_values(|sl: SlotView| sl.texture),
                            },
                            p3 + 8,
                        )
                    },
                },
            },
        }
    }
}

/// The scalar fields of the 96-byte fixed prefix of a material payload.
struct PrefixFields {
    flags: u32,
    additive_lighting_model: bool,
    colour: Rgba,
    specular: Rgba,
    power: u32,
    shading_mode: i32,
    blend: bool,
    blend_modes: BlendModes,
    alpha_test: bool,
    alpha_test_mode: AlphaTestMode,
    depth_buffer_write: bool,
    depth_buffer_comparison_mode: i32,
    material_hash: u32,
    owner: u32,
    colour_buffer_write: u32,
}

/// Decodes the fixed prefix of a material payload, in stream order; the
/// name-hash word at offset 4 is read and discarded.
#[verifier::spinoff_prover]
#[verifier::rlimit(100)]
fn decode_prefix(bytes: &[u8], pos: usize) -> (r: Result<(PrefixFields, usize), DecodeError>)
    ensures
        pos + 96 <= bytes@.len() ==> (r matches Ok(t) && t.1 == pos + 96 && t.0.flags == le32(
            bytes@,
            pos as int,
        ) && t.0.additive_lighting_model == (le32i(bytes@, pos + 8) != 0) && t.0.colour
            == spec_rgba(bytes@, pos + 12) && t.0.specular == spec_rgba(bytes@, pos + 28)
            && t.0.power == le32(bytes@, pos + 44) && t.0.shading_mode == le32i(bytes@, pos + 48)
            && t.0.blend == (le32i(bytes@, pos + 52) != 0) && t.0.blend_modes == spec_blend_modes(
            bytes@,
            pos + 56,
        ) && t.0.alpha_test == (le32i(bytes@, pos + 64) != 0) && t.0.alpha_test_mode
            == spec_alpha_test_mode(bytes@, pos + 68) && t.0.depth_buffer_write == (le32i(
            bytes@,
            pos + 76,
        ) != 0) && t.0.depth_buffer_comparison_mode == le32i(bytes@, pos + 80) && t.0.material_hash
            == le32(bytes@, pos + 84) && t.0.owner == le32(bytes@, pos + 88)
            && t.0.colour_buffer_write == le32(bytes@, pos + 92)),
        pos + 96 > bytes@.len() ==> (r matches Err(e) && e == DecodeError::ShortRead),
{
        let (flags, c1) = match read_u32(bytes, pos) {
            Ok(t) => t,
            Err(e) => {
                return Err(e);
            },
        };
        let (_name_hash, c2) = match read_u32(bytes, c1) {
            Ok(t) => t,
            Err(e) => {
                return Err(e);
            },
        };
        let (additive_word, c3) = match read_i32(bytes, c2) {
            Ok(t) => t,
            Err(e) => {
                return Err(e);
            },
        };
        let (colour, c4) = match Rgba::decode(bytes, c3) {
            Ok(t) => t,
            Err(e) => {
                return Err(e);
            },
        };
        let (specular, c5) = match Rgba::decode(bytes, c4) {
            Ok(t) => t,
            Err(e) => {
                return Err(e);
            },
        };
        let (power, c6) = match read_u32(bytes, c5) {
            Ok(t) => t,
            Err(e) => {
                return Err(e);
            },
        };
        let (shading_mode, c7) = match read_i32(bytes, c6) {
            Ok(t) => t,
            Err(e) => {
                return Err(e);
            },
        };
        let (blend_word, c8) = match read_i32(bytes, c7) {
            Ok(t) => t,
            Err(e) => {
                return Err(e);
            },
        };
        let (blend_modes, c9) = match BlendModes::decode(bytes, c8) {
            Ok(t) => t,
            Err(e) => {
                return Err(e);
            },
        };
        let (alpha_word, c10) = match read_i32(bytes, c9) {
            Ok(t) => t,
            Err(e) => {
                return Err(e);
            },
        };
        let (alpha_test_mode, c11) = match AlphaTestMode::decode(bytes, c10) {
            Ok(t) => t,
            Err(e) => {
                return Err(e);
            },
        };
        let (depth_word, c12) = match read_i32(bytes, c11) {
            Ok(t) => t,
            Err(e) => {
                return Err(e);
            },
        };
        let (depth_buffer_comparison_mode, c13) = match read_i32(bytes, c12) {
            Ok(t) => t,
            Err(e) => {
                return Err(e);
            },
        };
        let (material_hash, c14) = match read_u32(bytes, c13) {
            Ok(t) => t,
            Err(e) => {
                return Err(e);
            },
        };
        let (owner, c15) = match read_u32(bytes, c14) {
            Ok(t) => t,
            Err(e) => {
                return Err(e);
            },
        };
        let (colour_buffer_write, c16) = match read_u32(bytes, c15) {
            Ok(t) => t,
            Err(e) => {
                return Err(e);
            },
        };
        Ok((
            PrefixFields {
                flags,
                additive_lighting_model: additive_word != 0,
                colour,
                specular,
                power,
                shading_mode,
                blend: blend_word != 0,
                blend_modes,
                alpha_test: alpha_word != 0,
                alpha_test_mode,
                depth_buffer_write: depth_word != 0,
                depth_buffer_comparison_mode,
                material_hash,
                owner,
                colour_buffer_write,
            },
            c16,
        ))
    }

/// Decodes the five texture slots of a material payload, returning the
/// per-slot UV-set indices, the per-slot hashes and the optional texture
/// descriptors, in slot order.
#[verifier::loop_isolation(false)]
#[verifier::rlimit(60)]
fn decode_slots(bytes: &[u8], pos: usize) -> (r: Result<
    (Vec<u32>, Vec<u32>, Vec<Option<MaterialTexture>>, usize),
    DecodeError,
>)
    ensures
        (match spec_many(slot_decoder(), bytes@, pos as int, 5) {
            SpecRes::Found(sl, p) => r matches Ok(t) && t.0@ == sl.map_values(
                |s: SlotView| s.uv_set,
            ) && t.1@ == sl.map_values(|s: SlotView| s.hash) && t.2.deep_view() == sl.map_values(
                |s: SlotView| s.texture,
            ) && t.0@.len() == 5 && t.1@.len() == 5 && t.2@.len() == 5 && t.3 == p,
            SpecRes::Fail(e) => r matches Err(e2) && e2 == e,
        }),
{
        let ghost fslot = slot_decoder();
        let mut uv_sets: Vec<u32> = Vec::new();
        let mut texture_hashes: Vec<u32> = Vec::new();
        let mut textures: Vec<Option<MaterialTexture>> = Vec::new();
        let ghost mut gslots: Seq<SlotView> = Seq::empty();
        let mut cur: usize = pos;
        let mut i: usize = 0;
        proof {
            assert(textures.deep_view() =~= Seq::<Option<MaterialTextureView>>::empty());
        }
        while i < 5
            invariant
                0 <= i <= 5,
                spec_many(fslot, bytes@, pos as int, i as int) == SpecRes::Found(
                    gslots,
                    cur as int,
                ),
                gslots.len() == i,
                uv_sets@.len() == i,
                texture_hashes@.len() == i,
                textures@.len() == i,
                forall|j: int| 0 <= j < i ==> uv_sets@[j] == gslots[j].uv_set,
                forall|j: int| 0 <= j < i ==> texture_hashes@[j] == gslots[j].hash,
                forall|j: int| 0 <= j < i ==> textures.deep_view()[j] == gslots[j].texture,
            decreases 5 - i,
        {
            let ghost pretex = textures.deep_view();
            match decode_slot(bytes, cur) {
                Ok((uv, h, tex, q)) => {
                    proof {
                        lemma_many_extend(fslot, bytes@, pos as int, i as int, gslots, cur as int);
                    }
                    let ghost sl = (match spec_slot(bytes@, cur as int) {
                        SpecRes::Found(sl, _) => sl,
                        SpecRes::Fail(_) => arbitrary(),
                    });
                    uv_sets.push(uv);
                    texture_hashes.push(h);
                    textures.push(tex);
                    proof {
                        gslots = gslots.push(sl);
                        assert(textures.deep_view() =~= pretex.push(textures@[i as int].deep_view()));
                    }
                    cur = q;
                    i = i + 1;
                },
                Err(e) => {
                    proof {
                        lemma_many_fail(
                            fslot,
                            bytes@,
                            pos as int,
                            i as int,
                            5,
                            gslots,
                            cur as int,
                            e,
                        );
                    }
                    return Err(e);
                },
            }
        }
        proof {
            assert(uv_sets@ =~= gslots.map_values(|sl: SlotView| sl.uv_set));
            assert(texture_hashes@ =~= gslots.map_values(|sl: SlotView| sl.hash));
            assert(textures.deep_view() =~= gslots.map_values(|sl: SlotView| sl.texture));
        }
        Ok((uv_sets, texture_hashes, textures, cur))
}

/// Decodes the five matrix-presence entries of a material payload,
/// consuming each present transform.
#[verifier::loop_isolation(false)]
fn decode_matrix_flags(bytes: &[u8], pos: usize) -> (r: Result<(Vec<bool>, usize), DecodeError>)
    ensures
        (match spec_many(matrix_flag_decoder(), bytes@, pos as int, 5) {
            SpecRes::Found(ms, p) => r matches Ok(t) && t.0@ == ms && t.0@.len() == 5 && t.1 == p,
            SpecRes::Fail(e) => r matches Err(e2) && e2 == e,
        }),
{
        let ghost fmat = matrix_flag_decoder();
        let ghost slots_end = pos as int;
        let mut use_matrices: Vec<bool> = Vec::new();
        let mut cur: usize = pos;
        let mut k: usize = 0;
        while k < 5
            invariant
                0 <= k <= 5,
                spec_many(fmat, bytes@, slots_end, k as int) == SpecRes::Found(
                    use_matrices@,
                    cur as int,
                ),
                use_matrices@.len() == k,
            decreases 5 - k,
        {
            match decode_matrix_flag(bytes, cur) {
                Ok((b, q)) => {
                    proof {
                        lemma_many_extend(fmat, bytes@, slots_end, k as int, use_matrices@, cur as int);
                    }
                    use_matrices.push(b);
                    cur = q;
                    k = k + 1;
                },
                Err(e) => {
                    proof {
                        lemma_many_fail(
                            fmat,
                            bytes@,
                            slots_end,
                            k as int,
                            5,
                            use_matrices@,
                            cur as int,
                            e,
                        );
                    }
                    return Err(e);
                },
            }
        }
        Ok((use_matrices, cur))
}

/// Decodes the five generator codes of a material payload.
#[verifier::loop_isolation(false)]
fn decode_generators(bytes: &[u8], pos: usize) -> (r: Result<(Vec<i32>, usize), DecodeError>)
    ensures
        (match spec_many(generator_decoder(), bytes@, pos as int, 5) {
            SpecRes::Found(gs, p) => r matches Ok(t) && t.0@ == gs && t.0@.len() == 5 && t.1 == p,
            SpecRes::Fail(e) => r matches Err(e2) && e2 == e,
        }),
{
        let ghost fgen = generator_decoder();
        let ghost mats_end = pos as int;
        let mut generators: Vec<i32> = Vec::new();
        let mut cur: usize = pos;
        let mut g: usize = 0;
        while g < 5
            invariant
                0 <= g <= 5,
                spec_many(fgen, bytes@, mats_end, g as int) == SpecRes::Found(
                    generators@,
                    cur as int,
                ),
                generators@.len() == g,
            decreases 5 - g,
        {
            match read_i32(bytes, cur) {
                Ok((v, q)) => {
                    proof {
                        lemma_many_extend(fgen, bytes@, mats_end, g as int, generators@, cur as int);
                    }
                    generators.push(v);
                    cur = q;
                    g = g + 1;
                },
                Err(e) => {
                    proof {
                        lemma_many_fail(
                            fgen,
                            bytes@,
                            mats_end,
                            g as int,
                            5,
                            generators@,
                            cur as int,
                            e,
                        );
                    }
                    return Err(e);
                },
            }
        }
        Ok((generators, cur))
}

/// The four bytes of a 32-bit word, little-endian.
pub open spec fn le_bytes32(x: u32) -> Seq<u8> {
    seq![x as u8, (x >> 8) as u8, (x >> 16) as u8, (x >> 24) as u8]
}

/// The four bytes of a signed 32-bit word, little-endian.
pub open spec fn le_bytes32i(x: i32) -> Seq<u8> {
    le_bytes32(x as u32)
}

/// One byte standing for a boolean, 1 for true and 0 for false.
pub open spec fn bool_byte(b: bool) -> u8 {
    if b {
        1
    } else {
        0
    }
}

/// The 16 bytes of a float color, channel order r, g, b, a.
pub open spec fn rgba_bytes(c: Rgba) -> Seq<u8> {
    le_bytes32(c.r) + le_bytes32(c.g) + le_bytes32(c.b) + le_bytes32(c.a)
}

/// The tightly packed byte serialization of an attribute block, in the fixed
/// field order the structural hash is defined over.
pub open spec fn attributes_bytes(a: AttributesView) -> Seq<u8> {
    le_bytes32(a.flags) + seq![bool_byte(a.additive_lighting_model)] + rgba_bytes(a.colour)
        + rgba_bytes(a.specular) + le_bytes32(a.power) + le_bytes32i(a.shading_mode)
        + seq![bool_byte(a.depth_buffer_write)] + le_bytes32i(a.depth_buffer_comparison_mode)
        + seq![bool_byte(a.blend)] + le_bytes32i(a.blend_modes.source_mode) + le_bytes32i(
        a.blend_modes.destination_mode,
    ) + seq![bool_byte(a.alpha_test)] + le_bytes32i(a.alpha_test_mode.comparison_function)
        + le_bytes32(a.alpha_test_mode.reference) + le_bytes32(a.owner) + le_bytes32(
        a.colour_buffer_write,
    )
        + seq![
        bool_byte(a.use_matrices[0]),
        bool_byte(a.use_matrices[1]),
        bool_byte(a.use_matrices[2]),
        bool_byte(a.use_matrices[3]),
        bool_byte(a.use_matrices[4]),
    ] + le_bytes32i(a.generators[0]) + le_bytes32i(a.generators[1]) + le_bytes32i(a.generators[2])
        + le_bytes32i(a.generators[3]) + le_bytes32i(a.generators[4]) + le_bytes32(a.uv_sets[0])
        + le_bytes32(a.uv_sets[1]) + le_bytes32(a.uv_sets[2]) + le_bytes32(a.uv_sets[3])
        + le_bytes32(a.uv_sets[4]) + le_bytes32(a.texture_hashes[0]) + le_bytes32(
        a.texture_hashes[1],
    ) + le_bytes32(a.texture_hashes[2]) + le_bytes32(a.texture_hashes[3]) + le_bytes32(
        a.texture_hashes[4],
    ) + le_bytes32i(a.envmap_type) + le_bytes32(a.planar_sheer_envmap_distance)
}

/// The structural hash of a material: FNV-1a over the serialized attribute
/// block. A pure function of the attribute value, independent of how or from
/// which cursor the material was decoded.
pub open spec fn spec_structural_hash(m: MaterialView) -> u32 {
    fnv1a(attributes_bytes(m.attributes))
}

/// Appends the four little-endian bytes of a 32-bit word.
fn push_u32(out: &mut Vec<u8>, x: u32)
    ensures
        final(out)@ == old(out)@ + le_bytes32(x),
{
    out.push(
        #[verifier::truncate]
        (x as u8),
    );
    out.push(
        #[verifier::truncate]
        ((x >> 8) as u8),
    );
    out.push(
        #[verifier::truncate]
        ((x >> 16) as u8),
    );
    out.push(
        #[verifier::truncate]
        ((x >> 24) as u8),
    );
    proof {
        assert(out@ =~= old(out)@ + le_bytes32(x));
    }
}

/// Appends the four little-endian bytes of a signed 32-bit word.
fn push_i32(out: &mut Vec<u8>, x: i32)
    ensures
        final(out)@ == old(out)@ + le_bytes32i(x),
{
    push_u32(
        out,
        #[verifier::truncate]
        (x as u32),
    );
}

/// Appends one byte standing for a boolean.
fn push_bool(out: &mut Vec<u8>, b: bool)
    ensures
        final(out)@ == old(out)@ + seq![bool_byte(b)],
{
    out.push(if b { 1 } else { 0 });
    proof {
        assert(out@ =~= old(out)@ + seq![bool_byte(b)]);
    }
}

/// Appends the 16 bytes of a float color.
fn push_rgba(out: &mut Vec<u8>, c: Rgba)
    ensures
        final(out)@ == old(out)@ + rgba_bytes(c),
{
    push_u32(out, c.r);
    push_u32(out, c.g);
    push_u32(out, c.b);
    push_u32(out, c.a);
    proof {
        assert(out@ =~= old(out)@ + rgba_bytes(c));
    }
}

impl Attributes {
    /// Serializes the attribute block into its tightly packed byte form, in
    /// the fixed field order the structural hash is defined over.
    #[verifier::spinoff_prover]
    #[verifier::rlimit(100)]
    pub fn to_bytes(&self) -> (r: Vec<u8>)
        requires
            self.wf(),
        ensures
            r@ == attributes_bytes(self@),
    {
        let mut out: Vec<u8> = Vec::new();
        push_u32(&mut out, self.flags);
        push_bool(&mut out, self.additive_lighting_model);
        push_rgba(&mut out, self.colour);
        push_rgba(&mut out, self.specular);
        push_u32(&mut out, self.power);
        push_i32(&mut out, self.shading_mode);
        push_bool(&mut out, self.depth_buffer_write);
        push_i32(&mut out, self.depth_buffer_comparison_mode);
        push_bool(&mut out, self.blend);
        push_i32(&mut out, self.blend_modes.source_mode);
        push_i32(&mut out, self.blend_modes.destination_mode);
        push_bool(&mut out, self.alpha_test);
        push_i32(&mut out, self.alpha_test_mode.comparison_function);
        push_u32(&mut out, self.alpha_test_mode.reference);
        push_u32(&mut out, self.owner);
        push_u32(&mut out, self.colour_buffer_write);
        push_bool(&mut out, self.use_matrices[0]);
        push_bool(&mut out, self.use_matrices[1]);
        push_bool(&mut out, self.use_matrices[2]);
        push_bool(&mut out, self.use_matrices[3]);
        push_bool(&mut out, self.use_matrices[4]);
        push_i32(&mut out, self.generators[0]);
        push_i32(&mut out, self.generators[1]);
        push_i32(&mut out, self.generators[2]);
        push_i32(&mut out, self.generators[3]);
        push_i32(&mut out, self.generators[4]);
        push_u32(&mut out, self.uv_sets[0]);
        push_u32(&mut out, self.uv_sets[1]);
        push_u32(&mut out, self.uv_sets[2]);
        push_u32(&mut out, self.uv_sets[3]);
        push_u32(&mut out, self.uv_sets[4]);
        push_u32(&mut out, self.texture_hashes[0]);
        push_u32(&mut out, self.texture_hashes[1]);
        push_u32(&mut out, self.texture_hashes[2]);
        push_u32(&mut out, self.texture_hashes[3]);
        push_u32(&mut out, self.texture_hashes[4]);
        push_i32(&mut out, self.envmap_type);
        push_u32(&mut out, self.planar_sheer_envmap_distance);
        proof {
            assert(out@ =~= attributes_bytes(self@));
        }
        out
    }
}

impl Material {
    /// Decodes one material payload: the fixed attribute prefix, five
    /// texture slots, five optional transforms, five generator codes and the
    /// two trailing environment-map fields.
    #[verifier::rlimit(60)]
    pub fn decode(bytes: &[u8], pos: usize) -> (r: Result<(Material, usize), DecodeError>)
        ensures
            (match spec_material(bytes@, pos as int) {
                SpecRes::Found(m, p) => r matches Ok(t) && t.0@ == m && t.1 == p && t.0.wf(),
                SpecRes::Fail(e) => r matches Err(e2) && e2 == e,
            }),
    {
        let (prefix, c1) = match decode_prefix(bytes, pos) {
            Ok(t) => t,
            Err(e) => {
                return Err(e);
            },
        };
        let (uv_sets, texture_hashes, textures, c2) = match decode_slots(bytes, c1) {
            Ok(t) => t,
            Err(e) => {
                return Err(e);
            },
        };
        let (use_matrices, c3) = match decode_matrix_flags(bytes, c2) {
            Ok(t) => t,
            Err(e) => {
                return Err(e);
            },
        };
        let (generators, c4) = match decode_generators(bytes, c3) {
            Ok(t) => t,
            Err(e) => {
                return Err(e);
            },
        };
        let (envmap_type, c5) = match read_i32(bytes, c4) {
            Ok(t) => t,
            Err(e) => {
                return Err(e);
            },
        };
        let (planar_sheer_envmap_distance, c6) = match read_u32(bytes, c5) {
            Ok(t) => t,
            Err(e) => {
                return Err(e);
            },
        };
        let attributes = Attributes {
            flags: prefix.flags,
            additive_lighting_model: prefix.additive_lighting_model,
            colour: prefix.colour,
            specular: prefix.specular,
            power: prefix.power,
            shading_mode: prefix.shading_mode,
            depth_buffer_write: prefix.depth_buffer_write,
            depth_buffer_comparison_mode: prefix.depth_buffer_comparison_mode,
            blend: prefix.blend,
            blend_modes: prefix.blend_modes,
            alpha_test: prefix.alpha_test,
            alpha_test_mode: prefix.alpha_test_mode,
            owner: prefix.owner,
            colour_buffer_write: prefix.colour_buffer_write,
            use_matrices,
            generators,
            uv_sets,
            texture_hashes,
            envmap_type,
            planar_sheer_envmap_distance,
        };
        Ok((Material { material_hash: prefix.material_hash, attributes, textures }, c6))
    }

    /// Computes the structural hash of this material: FNV-1a over the
    /// explicit byte serialization of the attribute block. Deterministic and
    /// pure — it reads no stream and depends only on the attribute value.
    pub fn get_hash(&self) -> (r: u32)
        requires
            self.wf(),
        ensures
            r == spec_structural_hash(self@),
    {
        let bytes = self.attributes.to_bytes();
        fnv1a_hash(bytes.as_slice())
    }
}

/// The name length declared by the texture slot `i` of a run of
/// eight-byte (textureless) slots starting at `q`.
pub open spec fn slot_name_len(s: Seq<u8>, q: int, i: int) -> i32 {
    le32i(s, q + 8 * i + 4)
}

/// A run of texture slots that all declare a non-positive name length has a
/// closed decoded form: each slot occupies exactly eight bytes and
/// contributes its UV-set word, a zero hash and no texture; the run fails
/// with a short read exactly when those bytes are missing.
proof fn lemma_empty_slots_run(s: Seq<u8>, q: int, n: int)
    requires
        0 <= n,
        forall|i: int| 0 <= i < n ==> slot_name_len(s, q, i) <= 0,
    ensures
        n >= 1 && q + 8 * n > s.len() ==> spec_many(slot_decoder(), s, q, n)
            == SpecRes::<Seq<SlotView>>::Fail(DecodeError::ShortRead),
        q + 8 * n <= s.len() ==> spec_many(slot_decoder(), s, q, n) == SpecRes::Found(
            Seq::new(
                n as nat,
                |i: int| SlotView { uv_set: le32(s, q + 8 * i), hash: 0, texture: None },
            ),
            q + 8 * n,
        ),
    decreases n,
{
    let f = slot_decoder();
    if n == 0 {
        assert(spec_many(f, s, q, 0) == SpecRes::Found(Seq::<SlotView>::empty(), q));
        assert(Seq::new(0nat, |i: int| SlotView { uv_set: le32(s, q + 8 * i), hash: 0, texture: None })
            =~= Seq::<SlotView>::empty());
    } else {
        assert(forall|i: int|
            0 <= i < n - 1 ==> #[trigger] slot_name_len(s, q + 8, i) == slot_name_len(
                s,
                q,
                i + 1,
            ) && slot_name_len(s, q, i + 1) <= 0);
        lemma_empty_slots_run(s, q + 8, n - 1);
        if q + 8 > s.len() {
            assert(f(s, q) == SpecRes::<SlotView>::Fail(DecodeError::ShortRead));
            assert(spec_many(f, s, q, n) == SpecRes::<Seq<SlotView>>::Fail(DecodeError::ShortRead));
        } else {
            let x0 = SlotView { uv_set: le32(s, q), hash: 0, texture: None };
            assert(slot_name_len(s, q, 0) <= 0);
            assert(f(s, q) == SpecRes::Found(x0, q + 8));
            if q + 8 * n <= s.len() {
                let tail = Seq::new(
                    (n - 1) as nat,
                    |i: int| SlotView { uv_set: le32(s, q + 8 + 8 * i), hash: 0, texture: None },
                );
                assert(spec_many(f, s, q + 8, n - 1) == SpecRes::Found(tail, q + 8 + 8 * (n - 1)));
                assert(spec_many(f, s, q, n) == SpecRes::Found(seq![x0] + tail, q + 8 * n));
                assert(seq![x0] + tail =~= Seq::new(
                    n as nat,
                    |i: int| SlotView { uv_set: le32(s, q + 8 * i), hash: 0, texture: None },
                ));
            } else {
                assert(spec_many(f, s, q + 8, n - 1) == SpecRes::<Seq<SlotView>>::Fail(
                    DecodeError::ShortRead,
                ));
            }
        }
    }
}

/// For a material payload whose five texture slots all declare a
/// non-positive name length, a successful decode leaves every texture
/// absent, while each slot's UV-set word — read from the stream for every
/// slot — is still recorded, and every slot hash stays zero.
pub proof fn lemma_material_all_slots_empty(s: Seq<u8>, pos: int, m: MaterialView, p: int)
    requires
        spec_material(s, pos) == SpecRes::<MaterialView>::Found(m, p),
        forall|i: int| 0 <= i < 5 ==> #[trigger] slot_name_len(s, pos + 96, i) <= 0,
    ensures
        forall|i: int| 0 <= i < 5 ==> m.textures[i] is None,
        forall|i: int| 0 <= i < 5 ==> m.attributes.uv_sets[i] == le32(s, pos + 96 + 8 * i),
        forall|i: int| 0 <= i < 5 ==> m.attributes.texture_hashes[i] == 0,
{
    lemma_empty_slots_run(s, pos + 96, 5);
    let slots = Seq::new(
        5nat,
        |i: int| SlotView { uv_set: le32(s, pos + 96 + 8 * i), hash: 0, texture: None },
    );
    assert(spec_many(slot_decoder(), s, pos + 96, 5) == SpecRes::Found(slots, pos + 136));
    assert(m.textures == slots.map_values(|sl: SlotView| sl.texture));
    assert(m.attributes.uv_sets == slots.map_values(|sl: SlotView| sl.uv_set));
    assert(m.attributes.texture_hashes == slots.map_values(|sl: SlotView| sl.hash));
}

/// The structural hash is a pure function of the attribute block: any two
/// materials whose attribute blocks are equal — decoded from the same bytes
/// by independent cursors or obtained any other way — have the same
/// structural hash.
pub proof fn lemma_structural_hash_pure(m1: MaterialView, m2: MaterialView)
    requires
        m1.attributes == m2.attributes,
    ensures
        spec_structural_hash(m1) == spec_structural_hash(m2),
{
}

} // verus!
