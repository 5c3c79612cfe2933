//! The model-part/vertex decoder: a fixed 20-field part header followed by a
//! counted run of vertex records whose per-record byte layout is selected,
//! uniformly for the whole part, by the part's flag word.

use vstd::prelude::*;

use crate::err::DecodeError;
use crate::prim::{
    le16, le32, le32i, read_i32, read_u16, read_u32, spec_color4, spec_vec3, ColorBytes, SpecRes,
    Vec3, lemma_many_extend, lemma_many_fail, spec_many,
};

verus! {

/// Flag bit: the vertex record carries a position vector.
pub const HAS_VERTEX: u32 = 0x100;

/// Flag bit: the vertex record carries a normal vector.
pub const HAS_NORMAL: u32 = 0x200;

/// Flag bit: the vertex record carries a reciprocal homogeneous w word.
pub const HAS_RECIPROCAL_HOMOGENEOUS_W: u32 = 0x400;

/// Flag bit: the vertex record carries a byte-packed diffuse color.
pub const HAS_DIFFUSE: u32 = 0x800;

/// Flag bit: the vertex record carries a skin weight.
pub const HAS_WEIGHT: u32 = 0x1000;

/// Flag bit: the vertex record carries a pair of bone indices.
pub const HAS_INDICES: u32 = 0x2000;

/// Mask of the low flag bits that count the UV coordinate pairs per vertex.
pub const UV_COUNT_MASK: u32 = 0xFF;

/// One UV coordinate pair; each component holds the raw bit pattern of the
/// 32-bit float read from the stream.
#[derive(Clone, Copy, Debug, PartialEq, Eq, Structural)]
pub struct UvPair {
    pub u: u32,
    pub v: u32,
}

/// A vertex record. A field is `None` exactly when the part's flag word left
/// it out of the stream: absence is not a zero value.
pub struct Vertex {
    pub vertex: Option<Vec3>,
    pub normal: Option<Vec3>,
    pub reciprocal_homogeneous_w: Option<u32>,
    pub diffuse: Option<ColorBytes>,
    pub weight: Option<u32>,
    pub indices: Option<(u16, u16)>,
    pub uvs: Vec<UvPair>,
}

/// The decoded form of a vertex record, UV pairs as a sequence.
pub struct VertexView {
    pub vertex: Option<Vec3>,
    pub normal: Option<Vec3>,
    pub reciprocal_homogeneous_w: Option<u32>,
    pub diffuse: Option<ColorBytes>,
    pub weight: Option<u32>,
    pub indices: Option<(u16, u16)>,
    pub uvs: Seq<UvPair>,
}

impl View for Vertex {
    type V = VertexView;

    open spec fn view(&self) -> VertexView {
        VertexView {
            vertex: self.vertex,
            normal: self.normal,
            reciprocal_homogeneous_w: self.reciprocal_homogeneous_w,
            diffuse: self.diffuse,
            weight: self.weight,
            indices: self.indices,
            uvs: self.uvs@,
        }
    }
}

impl DeepView for Vertex {
    type V = VertexView;

    open spec fn deep_view(&self) -> VertexView {
        self.view()
    }
}

/// How many bytes one vertex record occupies under the flag word `flags`.
pub open spec fn vertex_size(flags: u32) -> int {
    (if flags & HAS_VERTEX != 0 {
        12int
    } else {
        0int
    }) + (if flags & HAS_NORMAL != 0 {
        12int
    } else {
        0int
    }) + (if flags & HAS_RECIPROCAL_HOMOGENEOUS_W != 0 {
        4int
    } else {
        0int
    }) + (if flags & HAS_DIFFUSE != 0 {
        4int
    } else {
        0int
    }) + (if flags & HAS_WEIGHT != 0 {
        4int
    } else {
        0int
    }) + (if flags & HAS_INDICES != 0 {
        4int
    } else {
        0int
    }) + 8 * (flags & UV_COUNT_MASK)
}

/// The vertex record stored at `pos` under the flag word `flags`: the six
/// optional fields in their fixed order, each present exactly when its bit is
/// set, then `flags & UV_COUNT_MASK` UV pairs in stream order.
pub open spec fn spec_vertex(s: Seq<u8>, pos: int, flags: u32) -> SpecRes<VertexView> {
    if pos + vertex_size(flags) > s.len() {
        SpecRes::Fail(DecodeError::ShortRead)
    } else {
        let p1 = pos + (if flags & HAS_VERTEX != 0 {
            12int
        } else {
            0int
        });
        let p2 = p1 + (if flags & HAS_NORMAL != 0 {
            12int
        } else {
            0int
        });
        let p3 = p2 + (if flags & HAS_RECIPROCAL_HOMOGENEOUS_W != 0 {
            4int
        } else {
            0int
        });
        let p4 = p3 + (if flags & HAS_DIFFUSE != 0 {
            4int
        } else {
            0int
        });
        let p5 = p4 + (if flags & HAS_WEIGHT != 0 {
            4int
        } else {
            0int
        });
        let p6 = p5 + (if flags & HAS_INDICES != 0 {
            4int
        } else {
            0int
        });
        SpecRes::Found(
            VertexView {
                vertex: if flags & HAS_VERTEX != 0 {
                    Some(spec_vec3(s, pos))
                } else {
                    None
                },
                normal: if flags & HAS_NORMAL != 0 {
                    Some(spec_vec3(s, p1))
                } else {
                    None
                },
                reciprocal_homogeneous_w: if flags & HAS_RECIPROCAL_HOMOGENEOUS_W != 0 {
                    Some(le32(s, p2))
                } else {
                    None
                },
                diffuse: if flags & HAS_DIFFUSE != 0 {
                    Some(spec_color4(s, p3))
                } else {
                    None
                },
                weight: if flags & HAS_WEIGHT != 0 {
                    Some(le32(s, p4))
                } else {
                    None
                },
                indices: if flags & HAS_INDICES != 0 {
                    Some((le16(s, p5), le16(s, p5 + 2)))
                } else {
                    None
                },
                uvs: Seq::new(
                    (flags & UV_COUNT_MASK) as nat,
                    |j: int| UvPair { u: le32(s, p6 + 8 * j), v: le32(s, p6 + 8 * j + 4) },
                ),
            },
            pos + vertex_size(flags),
        )
    }
}

/// The one-vertex decoder under a fixed flag word, as a value usable with
/// [`spec_many`].
pub open spec fn vertex_decoder(flags: u32) -> spec_fn(Seq<u8>, int) -> SpecRes<VertexView> {
    |s: Seq<u8>, pos: int| spec_vertex(s, pos, flags)
}

impl Vertex {
    /// Decodes one vertex record under the part's flag word. A field's
    /// presence is decided by its flag bit alone: `normal` is present if and
    /// only if bit 9 is set, and the UV pair count always equals
    /// `flags & UV_COUNT_MASK`.
    #[verifier::loop_isolation(false)]
    #[verifier::rlimit(60)]
    pub fn decode(bytes: &[u8], pos: usize, flags: u32) -> (r: Result<
        (Vertex, usize),
        DecodeError,
    >)
        ensures
            (match spec_vertex(bytes@, pos as int, flags) {
                SpecRes::Found(v, p) => r matches Ok(t) && t.0@ == v && t.1 == p,
                SpecRes::Fail(e) => r matches Err(e2) && e2 == e,
            }),
            (r matches Ok(t) ==> (t.0.normal is Some <==> flags & HAS_NORMAL != 0)),
            (r matches Ok(t) ==> t.0.uvs@.len() == flags & UV_COUNT_MASK),
    {
        let uv_count = flags & UV_COUNT_MASK;
        proof {
            assert(uv_count <= 0xFF) by (bit_vector)
                requires
                    uv_count == flags & 0xFFu32,
            ;
        }
        let mut need: usize = 8 * (uv_count as usize);
        if flags & HAS_VERTEX != 0 {
            need = need + 12;
        }
        if flags & HAS_NORMAL != 0 {
            need = need + 12;
        }
        if flags & HAS_RECIPROCAL_HOMOGENEOUS_W != 0 {
            need = need + 4;
        }
        if flags & HAS_DIFFUSE != 0 {
            need = need + 4;
        }
        if flags & HAS_WEIGHT != 0 {
            need = need + 4;
        }
        if flags & HAS_INDICES != 0 {
            need = need + 4;
        }
        proof {
            assert(need == vertex_size(flags));
        }
        if pos > bytes.len() || bytes.len() - pos < need {
            return Err(DecodeError::ShortRead);
        }
        let (vertex, p1) = if flags & HAS_VERTEX != 0 {
            match Vec3::decode(bytes, pos) {
                Ok(t) => (Some(t.0), t.1),
                Err(_) => {
                    return Err(DecodeError::ShortRead);
                },
            }
        } else {
            (None, pos)
        };
        let (normal, p2) = if flags & HAS_NORMAL != 0 {
            match Vec3::decode(bytes, p1) {
                Ok(t) => (Some(t.0), t.1),
                Err(_) => {
                    return Err(DecodeError::ShortRead);
                },
            }
        } else {
            (None, p1)
        };
        let (rhw, p3) = if flags & HAS_RECIPROCAL_HOMOGENEOUS_W != 0 {
            match read_u32(bytes, p2) {
                Ok(t) => (Some(t.0), t.1),
                Err(_) => {
                    return Err(DecodeError::ShortRead);
                },
            }
        } else {
            (None, p2)
        };
        let (diffuse, p4) = if flags & HAS_DIFFUSE != 0 {
            match ColorBytes::decode_u8(bytes, p3) {
                Ok(t) => (Some(t.0), t.1),
                Err(_) => {
                    return Err(DecodeError::ShortRead);
                },
            }
        } else {
            (None, p3)
        };
        let (weight, p5) = if flags & HAS_WEIGHT != 0 {
            match read_u32(bytes, p4) {
                Ok(t) => (Some(t.0), t.1),
                Err(_) => {
                    return Err(DecodeError::ShortRead);
                },
            }
        } else {
            (None, p4)
        };
        let (indices, p6) = if flags & HAS_INDICES != 0 {
            let (i0, q0) = match read_u16(bytes, p5) {
                Ok(t) => t,
                Err(_) => {
                    return Err(DecodeError::ShortRead);
                },
            };
            let (i1, q1) = match read_u16(bytes, q0) {
                Ok(t) => t,
                Err(_) => {
                    return Err(DecodeError::ShortRead);
                },
            };
            (Some((i0, i1)), q1)
        } else {
            (None, p5)
        };
        let mut uvs: Vec<UvPair> = Vec::new();
        let mut cur: usize = p6;
        let mut i: u32 = 0;
        while i < uv_count
            invariant
                0 <= i <= uv_count,
                cur == p6 + 8 * i,
                uvs@.len() == i,
                forall|j: int|
                    0 <= j < i ==> uvs@[j] == (UvPair {
                        u: le32(bytes@, p6 + 8 * j),
                        v: le32(bytes@, p6 + 8 * j + 4),
                    }),
            decreases uv_count - i,
        {
            let (u, q0) = match read_u32(bytes, cur) {
                Ok(t) => t,
                Err(_) => {
                    return Err(DecodeError::ShortRead);
                },
            };
            let (v, q1) = match read_u32(bytes, q0) {
                Ok(t) => t,
                Err(_) => {
                    return Err(DecodeError::ShortRead);
                },
            };
            uvs.push(UvPair { u, v });
            cur = q1;
            i = i + 1;
        }
        let out = Vertex { vertex, normal, reciprocal_homogeneous_w: rhw, diffuse, weight, indices, uvs };
        proof {
            let sv = spec_vertex(bytes@, pos as int, flags);
            assert(sv matches SpecRes::Found(v, p) && out@.uvs =~= v.uvs && p == cur);
        }
        Ok((out, cur))
    }
}

/// Presence of a vertex normal is decided by its flag bit alone: under any
/// flag word, a decoded vertex has `normal` present if and only if bit 9 of
/// the word is set, whatever the other bits hold.
pub proof fn lemma_vertex_normal_presence(s: Seq<u8>, pos: int, flags: u32)
    ensures
        (spec_vertex(s, pos, flags) matches SpecRes::Found(v, _) ==> (v.normal is Some <==> flags
            & HAS_NORMAL != 0)),
{
}

/// The UV pair count of a decoded vertex always equals the low byte of the
/// flag word; when that byte is zero the vertex carries no UV pairs.
pub proof fn lemma_vertex_uv_count(s: Seq<u8>, pos: int, flags: u32)
    ensures
        (spec_vertex(s, pos, flags) matches SpecRes::Found(v, _) ==> v.uvs.len() == flags
            & UV_COUNT_MASK),
        (spec_vertex(s, pos, flags) matches SpecRes::Found(v, _) ==> (flags & UV_COUNT_MASK == 0
            ==> v.uvs == Seq::<UvPair>::empty())),
{
    match spec_vertex(s, pos, flags) {
        SpecRes::Found(v, _) => {
            if flags & UV_COUNT_MASK == 0 {
                assert(v.uvs =~= Seq::<UvPair>::empty());
            }
        },
        SpecRes::Fail(_) => {},
    }
}

/// A renderable mesh part: a fixed header of flag words, counts, index
/// bounds and references, then the part's vertices. Every vertex of the part
/// is laid out by the one `flags` word of the header.
pub struct ModelPart {
    pub read_access_flags: u32,
    pub vertex_read_flags: u32,
    pub write_access_flags: u32,
    pub vertex_write_flags: u32,
    pub hint_flags: u32,
    pub constant_flags: u32,
    pub vertex_flags: u32,
    pub render_flags: u32,
    pub triangles_count: u16,
    pub strips_count: u16,
    pub strip_triangles_count: u16,
    pub material_hash: u32,
    pub triangle_index0: i32,
    pub triangle_index1: i32,
    pub vertex_index0: i32,
    pub vertex_index1: i32,
    pub layer_z: u32,
    pub floor_flags: u32,
    pub flags: u32,
    pub lighting_sid: u32,
    pub vertices: Vec<Vertex>,
}

/// The decoded form of a model part, vertices as a sequence.
pub struct ModelPartView {
    pub read_access_flags: u32,
    pub vertex_read_flags: u32,
    pub write_access_flags: u32,
    pub vertex_write_flags: u32,
    pub hint_flags: u32,
    pub constant_flags: u32,
    pub vertex_flags: u32,
    pub render_flags: u32,
    pub triangles_count: u16,
    pub strips_count: u16,
    pub strip_triangles_count: u16,
    pub material_hash: u32,
    pub triangle_index0: i32,
    pub triangle_index1: i32,
    pub vertex_index0: i32,
    pub vertex_index1: i32,
    pub layer_z: u32,
    pub floor_flags: u32,
    pub flags: u32,
    pub lighting_sid: u32,
    pub vertices: Seq<VertexView>,
}

impl View for ModelPart {
    type V = ModelPartView;

    open spec fn view(&self) -> ModelPartView {
        ModelPartView {
            read_access_flags: self.read_access_flags,
            vertex_read_flags: self.vertex_read_flags,
            write_access_flags: self.write_access_flags,
            vertex_write_flags: self.vertex_write_flags,
            hint_flags: self.hint_flags,
            constant_flags: self.constant_flags,
            vertex_flags: self.vertex_flags,
            render_flags: self.render_flags,
            triangles_count: self.triangles_count,
            strips_count: self.strips_count,
            strip_triangles_count: self.strip_triangles_count,
            material_hash: self.material_hash,
            triangle_index0: self.triangle_index0,
            triangle_index1: self.triangle_index1,
            vertex_index0: self.vertex_index0,
            vertex_index1: self.vertex_index1,
            layer_z: self.layer_z,
            floor_flags: self.floor_flags,
            flags: self.flags,
            lighting_sid: self.lighting_sid,
            vertices: self.vertices.deep_view(),
        }
    }
}

/// The model-part payload stored at `pos`: the 78-byte header, then exactly
/// the declared number of vertex records, each laid out by the header's
/// `flags` word (stored 70 bytes into the header; the vertex count 32 bytes
/// in).
pub open spec fn spec_model_part(s: Seq<u8>, pos: int) -> SpecRes<ModelPartView> {
    if pos + 78 > s.len() {
        SpecRes::Fail(DecodeError::ShortRead)
    } else {
        let flags = le32(s, pos + 70);
        let n = le32(s, pos + 32);
        match spec_many(vertex_decoder(flags), s, pos + 78, n as int) {
            SpecRes::Fail(e) => SpecRes::Fail(e),
            SpecRes::Found(vs, p) => SpecRes::Found(
                ModelPartView {
                    read_access_flags: le32(s, pos),
                    vertex_read_flags: le32(s, pos + 4),
                    write_access_flags: le32(s, pos + 8),
                    vertex_write_flags: le32(s, pos + 12),
                    hint_flags: le32(s, pos + 16),
                    constant_flags: le32(s, pos + 20),
                    vertex_flags: le32(s, pos + 24),
                    render_flags: le32(s, pos + 28),
                    triangles_count: le16(s, pos + 36),
                    strips_count: le16(s, pos + 38),
                    strip_triangles_count: le16(s, pos + 40),
                    material_hash: le32(s, pos + 42),
                    triangle_index0: le32i(s, pos + 46),
                    triangle_index1: le32i(s, pos + 50),
                    vertex_index0: le32i(s, pos + 54),
                    vertex_index1: le32i(s, pos + 58),
                    layer_z: le32(s, pos + 62),
                    floor_flags: le32(s, pos + 66),
                    flags: flags,
                    lighting_sid: le32(s, pos + 74),
                    vertices: vs,
                },
                p,
            ),
        }
    }
}

impl ModelPart {
    /// Decodes one model part: the fixed header, then `vertex_count` vertex
    /// records laid out uniformly by the header's `flags` word.
    #[verifier::loop_isolation(false)]
    #[verifier::rlimit(60)]
    pub fn decode(bytes: &[u8], pos: usize) -> (r: Result<(ModelPart, usize), DecodeError>)
        ensures
            (match spec_model_part(bytes@, pos as int) {
                SpecRes::Found(m, p) => r matches Ok(t) && t.0@ == m && t.1 == p,
                SpecRes::Fail(e) => r matches Err(e2) && e2 == e,
            }),
    {
        if bytes.len() < 78 || pos > bytes.len() - 78 {
            return Err(DecodeError::ShortRead);
        }
        let (read_access_flags, c1) = match read_u32(bytes, pos) {
            Ok(t) => t,
            Err(_) => {
                return Err(DecodeError::ShortRead);
            },
        };
        let (vertex_read_flags, c2) = match read_u32(bytes, c1) {
            Ok(t) => t,
            Err(_) => {
                return Err(DecodeError::ShortRead);
            },
        };
        let (write_access_flags, c3) = match read_u32(bytes, c2) {
            Ok(t) => t,
            Err(_) => {
                return Err(DecodeError::ShortRead);
            },
        };
        let (vertex_write_flags, c4) = match read_u32(bytes, c3) {
            Ok(t) => t,
            Err(_) => {
                return Err(DecodeError::ShortRead);
            },
        };
        let (hint_flags, c5) = match read_u32(bytes, c4) {
            Ok(t) => t,
            Err(_) => {
                return Err(DecodeError::ShortRead);
            },
        };
        let (constant_flags, c6) = match read_u32(bytes, c5) {
            Ok(t) => t,
            Err(_) => {
                return Err(DecodeError::ShortRead);
            },
        };
        let (vertex_flags, c7) = match read_u32(bytes, c6) {
            Ok(t) => t,
            Err(_) => {
                return Err(DecodeError::ShortRead);
            },
        };
        let (render_flags, c8) = match read_u32(bytes, c7) {
            Ok(t) => t,
            Err(_) => {
                return Err(DecodeError::ShortRead);
            },
        };
        let (vertex_count, c9) = match read_u32(bytes, c8) {
            Ok(t) => t,
            Err(_) => {
                return Err(DecodeError::ShortRead);
            },
        };
        let (triangles_count, c10) = match read_u16(bytes, c9) {
            Ok(t) => t,
            Err(_) => {
                return Err(DecodeError::ShortRead);
            },
        };
        let (strips_count, c11) = match read_u16(bytes, c10) {
            Ok(t) => t,
            Err(_) => {
                return Err(DecodeError::ShortRead);
            },
        };
        let (strip_triangles_count, c12) = match read_u16(bytes, c11) {
            Ok(t) => t,
            Err(_) => {
                return Err(DecodeError::ShortRead);
            },
        };
        let (material_hash, c13) = match read_u32(bytes, c12) {
            Ok(t) => t,
            Err(_) => {
                return Err(DecodeError::ShortRead);
            },
        };
        let (triangle_index0, c14) = match read_i32(bytes, c13) {
            Ok(t) => t,
            Err(_) => {
                return Err(DecodeError::ShortRead);
            },
        };
        let (triangle_index1, c15) = match read_i32(bytes, c14) {
            Ok(t) => t,
            Err(_) => {
                return Err(DecodeError::ShortRead);
            },
        };
        let (vertex_index0, c16) = match read_i32(bytes, c15) {
            Ok(t) => t,
            Err(_) => {
                return Err(DecodeError::ShortRead);
            },
        };
        let (vertex_index1, c17) = match read_i32(bytes, c16) {
            Ok(t) => t,
            Err(_) => {
                return Err(DecodeError::ShortRead);
            },
        };
        let (layer_z, c18) = match read_u32(bytes, c17) {
            Ok(t) => t,
            Err(_) => {
                return Err(DecodeError::ShortRead);
            },
        };
        let (floor_flags, c19) = match read_u32(bytes, c18) {
            Ok(t) => t,
            Err(_) => {
                return Err(DecodeError::ShortRead);
            },
        };
        let (flags, c20) = match read_u32(bytes, c19) {
            Ok(t) => t,
            Err(_) => {
                return Err(DecodeError::ShortRead);
            },
        };
        let (lighting_sid, c21) = match read_u32(bytes, c20) {
            Ok(t) => t,
            Err(_) => {
                return Err(DecodeError::ShortRead);
            },
        };
        let ghost f = vertex_decoder(flags);
        let mut vertices: Vec<Vertex> = Vec::new();
        let mut cur: usize = c21;
        let mut i: u32 = 0;
        proof {
            assert(vertices.deep_view() =~= Seq::<VertexView>::empty());
        }
        while i < vertex_count
            invariant
                0 <= i <= vertex_count,
                spec_many(f, bytes@, c21 as int, i as int) == SpecRes::Found(
                    vertices.deep_view(),
                    cur as int,
                ),
                vertices@.len() == i,
            decreases vertex_count - i,
        {
            let ghost prefix = vertices.deep_view();
            match Vertex::decode(bytes, cur, flags) {
                Ok((v, q)) => {
                    proof {
                        lemma_many_extend(f, bytes@, c21 as int, i as int, prefix, cur as int);
                    }
                    vertices.push(v);
                    cur = q;
                    i = i + 1;
                    proof {
                        assert(vertices.deep_view() =~= prefix.push(vertices@[i - 1 as int]@));
                    }
                },
                Err(e) => {
                    proof {
                        lemma_many_fail(
                            f,
                            bytes@,
                            c21 as int,
                            i as int,
                            vertex_count as int,
                            prefix,
                            cur as int,
                            e,
                        );
                    }
                    return Err(e);
                },
            }
        }
        Ok((
            ModelPart {
                read_access_flags,
                vertex_read_flags,
                write_access_flags,
                vertex_write_flags,
                hint_flags,
                constant_flags,
                vertex_flags,
                render_flags,
                triangles_count,
                strips_count,
                strip_triangles_count,
                material_hash,
                triangle_index0,
                triangle_index1,
                vertex_index0,
                vertex_index1,
                layer_z,
                floor_flags,
                flags,
                lighting_sid,
                vertices,
            },
            cur,
        ))
    }
}

} // verus!
