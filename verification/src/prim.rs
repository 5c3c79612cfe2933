//! The primitive reader: little-endian decoding of fixed-width integers and
//! geometric aggregates from a byte slice with an explicit cursor position.
//!
//! Each exec reader either returns the decoded value together with the cursor
//! position just past it, or fails with [`DecodeError::ShortRead`] when fewer
//! bytes remain than the value requires.

use vstd::prelude::*;

use crate::err::DecodeError;

verus! {

/// Outcome of a decode step at the specification level: the decoded value and
/// the cursor position just past it, or the error the step fails with.
pub enum SpecRes<T> {
    Found(T, int),
    Fail(DecodeError),
}

/// The unsigned 16-bit value stored little-endian at `s[i..i + 2]`.
pub open spec fn le16(s: Seq<u8>, i: int) -> u16 {
    (s[i] + s[i + 1] * 0x100) as u16
}

/// The unsigned 32-bit value stored little-endian at `s[i..i + 4]`.
pub open spec fn le32(s: Seq<u8>, i: int) -> u32 {
    (s[i] + s[i + 1] * 0x100 + s[i + 2] * 0x10000 + s[i + 3] * 0x1000000) as u32
}

/// The signed 32-bit value stored little-endian at `s[i..i + 4]`
/// (two's complement reinterpretation of [`le32`]).
pub open spec fn le32i(s: Seq<u8>, i: int) -> i32 {
    le32(s, i) as i32
}

/// Reads one byte.
pub fn read_u8(bytes: &[u8], pos: usize) -> (r: Result<(u8, usize), DecodeError>)
    ensures
        pos + 1 <= bytes@.len() ==> (r matches Ok(t) && t.0 == bytes@[pos as int] && t.1 == pos
            + 1),
        pos + 1 > bytes@.len() ==> (r matches Err(e) && e == DecodeError::ShortRead),
{
    if bytes.len() < 1 || pos > bytes.len() - 1 {
        return Err(DecodeError::ShortRead);
    }
    Ok((bytes[pos], pos + 1))
}

/// Reads an unsigned 16-bit integer, little-endian.
pub fn read_u16(bytes: &[u8], pos: usize) -> (r: Result<(u16, usize), DecodeError>)
    ensures
        pos + 2 <= bytes@.len() ==> (r matches Ok(t) && t.0 == le16(bytes@, pos as int) && t.1
            == pos + 2),
        pos + 2 > bytes@.len() ==> (r matches Err(e) && e == DecodeError::ShortRead),
{
    if bytes.len() < 2 || pos > bytes.len() - 2 {
        return Err(DecodeError::ShortRead);
    }
    let b0 = bytes[pos] as u16;
    let b1 = bytes[pos + 1] as u16;
    Ok((b0 + b1 * 0x100, pos + 2))
}

/// Reads one byte as a signed 8-bit integer.
pub fn read_i8(bytes: &[u8], pos: usize) -> (r: Result<(i8, usize), DecodeError>)
    ensures
        pos + 1 <= bytes@.len() ==> (r matches Ok(t) && t.0 == bytes@[pos as int] as i8 && t.1
            == pos + 1),
        pos + 1 > bytes@.len() ==> (r matches Err(e) && e == DecodeError::ShortRead),
{
    match read_u8(bytes, pos) {
        Ok((v, p)) => Ok((
            #[verifier::truncate]
            (v as i8),
            p,
        )),
        Err(e) => Err(e),
    }
}

/// Reads a signed 16-bit integer, little-endian.
pub fn read_i16(bytes: &[u8], pos: usize) -> (r: Result<(i16, usize), DecodeError>)
    ensures
        pos + 2 <= bytes@.len() ==> (r matches Ok(t) && t.0 == le16(bytes@, pos as int) as i16
            && t.1 == pos + 2),
        pos + 2 > bytes@.len() ==> (r matches Err(e) && e == DecodeError::ShortRead),
{
    match read_u16(bytes, pos) {
        Ok((v, p)) => Ok((
            #[verifier::truncate]
            (v as i16),
            p,
        )),
        Err(e) => Err(e),
    }
}

/// Reads an unsigned 32-bit integer, little-endian.
pub fn read_u32(bytes: &[u8], pos: usize) -> (r: Result<(u32, usize), DecodeError>)
    ensures
        pos + 4 <= bytes@.len() ==> (r matches Ok(t) && t.0 == le32(bytes@, pos as int) && t.1
            == pos + 4),
        pos + 4 > bytes@.len() ==> (r matches Err(e) && e == DecodeError::ShortRead),
{
    if bytes.len() < 4 || pos > bytes.len() - 4 {
        return Err(DecodeError::ShortRead);
    }
    let b0 = bytes[pos] as u32;
    let b1 = bytes[pos + 1] as u32;
    let b2 = bytes[pos + 2] as u32;
    let b3 = bytes[pos + 3] as u32;
    Ok((b0 + b1 * 0x100 + b2 * 0x10000 + b3 * 0x1000000, pos + 4))
}

/// Reads a signed 32-bit integer, little-endian.
pub fn read_i32(bytes: &[u8], pos: usize) -> (r: Result<(i32, usize), DecodeError>)
    ensures
        pos + 4 <= bytes@.len() ==> (r matches Ok(t) && t.0 == le32i(bytes@, pos as int) && t.1
            == pos + 4),
        pos + 4 > bytes@.len() ==> (r matches Err(e) && e == DecodeError::ShortRead),
{
    match read_u32(bytes, pos) {
        Ok((v, p)) => Ok((
            #[verifier::truncate]
            (v as i32),
            p,
        )),
        Err(e) => Err(e),
    }
}

/// Decoding `n` records in sequence with the one-record decoder `f`,
/// starting at `pos`: the records in stream order and the cursor position
/// past the last one, or the error the first failing record fails with.
pub open spec fn spec_many<T>(
    f: spec_fn(Seq<u8>, int) -> SpecRes<T>,
    s: Seq<u8>,
    pos: int,
    n: int,
) -> SpecRes<Seq<T>>
    decreases n,
{
    if n <= 0 {
        SpecRes::Found(Seq::empty(), pos)
    } else {
        match f(s, pos) {
            SpecRes::Found(x, p) => match spec_many(f, s, p, n - 1) {
                SpecRes::Found(xs, q) => SpecRes::Found(seq![x] + xs, q),
                SpecRes::Fail(e) => SpecRes::Fail(e),
            },
            SpecRes::Fail(e) => SpecRes::Fail(e),
        }
    }
}

/// Prepends an already-decoded prefix to the outcome of decoding the rest.
pub open spec fn spec_res_concat<T>(xs: Seq<T>, r: SpecRes<Seq<T>>) -> SpecRes<Seq<T>> {
    match r {
        SpecRes::Found(ys, q) => SpecRes::Found(xs + ys, q),
        SpecRes::Fail(e) => SpecRes::Fail(e),
    }
}

/// Decoding `n` records splits at any `i`: when the first `i` records decode
/// to `xs` ending at `p`, the whole run equals `xs` followed by the remaining
/// `n - i` records decoded from `p`; when the first `i` records already fail,
/// the whole run fails the same way.
pub proof fn lemma_many_split<T>(
    f: spec_fn(Seq<u8>, int) -> SpecRes<T>,
    s: Seq<u8>,
    pos: int,
    i: int,
    n: int,
)
    requires
        0 <= i <= n,
    ensures
        (match spec_many(f, s, pos, i) {
            SpecRes::Found(xs, p) => spec_many(f, s, pos, n) == spec_res_concat(
                xs,
                spec_many(f, s, p, n - i),
            ),
            SpecRes::Fail(e) => spec_many(f, s, pos, n) == SpecRes::<Seq<T>>::Fail(e),
        }),
    decreases i,
{
    if i <= 0 {
        assert(spec_many(f, s, pos, i) == SpecRes::Found(Seq::<T>::empty(), pos));
        match spec_many(f, s, pos, n) {
            SpecRes::Found(ys, q) => {
                assert(Seq::<T>::empty() + ys =~= ys);
            },
            SpecRes::Fail(_) => {},
        }
    } else {
        match f(s, pos) {
            SpecRes::Found(x, p) => {
                lemma_many_split(f, s, p, i - 1, n - 1);
                match spec_many(f, s, p, i - 1) {
                    SpecRes::Found(xs1, p1) => {
                        assert(spec_many(f, s, pos, i) == SpecRes::Found(seq![x] + xs1, p1));
                        match spec_many(f, s, p1, n - i) {
                            SpecRes::Found(ys, q) => {
                                assert(spec_many(f, s, p, n - 1) == SpecRes::Found(xs1 + ys, q));
                                assert(spec_many(f, s, pos, n) == SpecRes::Found(
                                    seq![x] + (xs1 + ys),
                                    q,
                                ));
                                assert(seq![x] + (xs1 + ys) =~= (seq![x] + xs1) + ys);
                            },
                            SpecRes::Fail(_) => {},
                        }
                    },
                    SpecRes::Fail(_) => {},
                }
            },
            SpecRes::Fail(_) => {},
        }
    }
}

/// Extends a successfully decoded prefix by one more record: the outcome for
/// `i + 1` records follows the outcome of `f` at the prefix's end position.
pub proof fn lemma_many_extend<T>(
    f: spec_fn(Seq<u8>, int) -> SpecRes<T>,
    s: Seq<u8>,
    pos: int,
    i: int,
    xs: Seq<T>,
    p: int,
)
    requires
        0 <= i,
        spec_many(f, s, pos, i) == SpecRes::Found(xs, p),
    ensures
        (match f(s, p) {
            SpecRes::Found(x, q) => spec_many(f, s, pos, i + 1) == SpecRes::Found(xs.push(x), q),
            SpecRes::Fail(e) => spec_many(f, s, pos, i + 1) == SpecRes::<Seq<T>>::Fail(e),
        }),
{
    lemma_many_split(f, s, pos, i, i + 1);
    match f(s, p) {
        SpecRes::Found(x, q) => {
            assert(spec_many(f, s, q, 0) == SpecRes::Found(Seq::<T>::empty(), q));
            assert(spec_many(f, s, p, 1) == SpecRes::Found(seq![x] + Seq::<T>::empty(), q));
            assert(xs + (seq![x] + Seq::<T>::empty()) =~= xs.push(x));
        },
        SpecRes::Fail(e) => {
            assert(spec_many(f, s, p, 1) == SpecRes::<Seq<T>>::Fail(e));
        },
    }
}

/// When a successfully decoded prefix ends where `f` fails, decoding any
/// larger number of records fails the same way.
pub proof fn lemma_many_fail<T>(
    f: spec_fn(Seq<u8>, int) -> SpecRes<T>,
    s: Seq<u8>,
    pos: int,
    i: int,
    n: int,
    xs: Seq<T>,
    p: int,
    e: DecodeError,
)
    requires
        0 <= i < n,
        spec_many(f, s, pos, i) == SpecRes::Found(xs, p),
        f(s, p) == SpecRes::<T>::Fail(e),
    ensures
        spec_many(f, s, pos, n) == SpecRes::<Seq<T>>::Fail(e),
{
    lemma_many_split(f, s, pos, i, n);
    assert(spec_many(f, s, p, n - i) == SpecRes::<Seq<T>>::Fail(e));
}

/// A 3-component vector; each component holds the raw bit pattern of the
/// 32-bit float read from the stream.
#[derive(Clone, Copy, Debug, PartialEq, Eq, Structural)]
pub struct Vec3 {
    pub x: u32,
    pub y: u32,
    pub z: u32,
}

/// A 4-component color read as four 32-bit floats; each channel holds the raw
/// bit pattern of the float read from the stream.
#[derive(Clone, Copy, Debug, PartialEq, Eq, Structural)]
pub struct Rgba {
    pub r: u32,
    pub g: u32,
    pub b: u32,
    pub a: u32,
}

/// A color read as one byte per channel.
#[derive(Clone, Copy, Debug, PartialEq, Eq, Structural)]
pub struct ColorBytes {
    pub r: u8,
    pub g: u8,
    pub b: u8,
    pub a: u8,
}

/// An axis-aligned bounding volume, decoded minimum first, maximum second.
#[derive(Clone, Copy, Debug, PartialEq, Eq, Structural)]
pub struct BoundingBox {
    pub min: Vec3,
    pub max: Vec3,
}

/// The vector whose components are stored at `s[i..i + 12]`, in x, y, z order.
pub open spec fn spec_vec3(s: Seq<u8>, i: int) -> Vec3 {
    Vec3 { x: le32(s, i), y: le32(s, i + 4), z: le32(s, i + 8) }
}

/// The float color stored at `s[i..i + 16]`, in r, g, b, a order.
pub open spec fn spec_rgba(s: Seq<u8>, i: int) -> Rgba {
    Rgba { r: le32(s, i), g: le32(s, i + 4), b: le32(s, i + 8), a: le32(s, i + 12) }
}

/// The byte color stored at `s[i..i + 4]`, in r, g, b, a order.
pub open spec fn spec_color4(s: Seq<u8>, i: int) -> ColorBytes {
    ColorBytes { r: s[i], g: s[i + 1], b: s[i + 2], a: s[i + 3] }
}

/// The byte color stored at `s[i..i + 3]` with the alpha channel implicitly
/// fully opaque.
pub open spec fn spec_color3(s: Seq<u8>, i: int) -> ColorBytes {
    ColorBytes { r: s[i], g: s[i + 1], b: s[i + 2], a: 0xff }
}

/// The bounding box stored at `s[i..i + 24]`, minimum extremum first.
pub open spec fn spec_bbox(s: Seq<u8>, i: int) -> BoundingBox {
    BoundingBox { min: spec_vec3(s, i), max: spec_vec3(s, i + 12) }
}

impl Vec3 {
    /// Decodes three little-endian 32-bit float bit patterns, x, y, z.
    pub fn decode(bytes: &[u8], pos: usize) -> (r: Result<(Vec3, usize), DecodeError>)
        ensures
            pos + 12 <= bytes@.len() ==> (r matches Ok(t) && t.0 == spec_vec3(bytes@, pos as int)
                && t.1 == pos + 12),
            pos + 12 > bytes@.len() ==> (r matches Err(e) && e == DecodeError::ShortRead),
    {
        let (x, p1) = match read_u32(bytes, pos) {
            Ok(t) => t,
            Err(e) => {
                return Err(e);
            },
        };
        let (y, p2) = match read_u32(bytes, p1) {
            Ok(t) => t,
            Err(e) => {
                return Err(e);
            },
        };
        let (z, p3) = match read_u32(bytes, p2) {
            Ok(t) => t,
            Err(e) => {
                return Err(e);
            },
        };
        Ok((Vec3 { x, y, z }, p3))
    }
}

impl Rgba {
    /// Decodes four little-endian 32-bit float bit patterns, r, g, b, a.
    pub fn decode(bytes: &[u8], pos: usize) -> (r: Result<(Rgba, usize), DecodeError>)
        ensures
            pos + 16 <= bytes@.len() ==> (r matches Ok(t) && t.0 == spec_rgba(bytes@, pos as int)
                && t.1 == pos + 16),
            pos + 16 > bytes@.len() ==> (r matches Err(e) && e == DecodeError::ShortRead),
    {
        let (red, p1) = match read_u32(bytes, pos) {
            Ok(t) => t,
            Err(e) => {
                return Err(e);
            },
        };
        let (green, p2) = match read_u32(bytes, p1) {
            Ok(t) => t,
            Err(e) => {
                return Err(e);
            },
        };
        let (blue, p3) = match read_u32(bytes, p2) {
            Ok(t) => t,
            Err(e) => {
                return Err(e);
            },
        };
        let (alpha, p4) = match read_u32(bytes, p3) {
            Ok(t) => t,
            Err(e) => {
                return Err(e);
            },
        };
        Ok((Rgba { r: red, g: green, b: blue, a: alpha }, p4))
    }
}

impl ColorBytes {
    /// Decodes a byte-per-channel color, r, g, b, a.
    pub fn decode_u8(bytes: &[u8], pos: usize) -> (r: Result<(ColorBytes, usize), DecodeError>)
        ensures
            pos + 4 <= bytes@.len() ==> (r matches Ok(t) && t.0 == spec_color4(bytes@, pos as int)
                && t.1 == pos + 4),
            pos + 4 > bytes@.len() ==> (r matches Err(e) && e == DecodeError::ShortRead),
    {
        if bytes.len() < 4 || pos > bytes.len() - 4 {
            return Err(DecodeError::ShortRead);
        }
        Ok((
            ColorBytes { r: bytes[pos], g: bytes[pos + 1], b: bytes[pos + 2], a: bytes[pos + 3] },
            pos + 4,
        ))
    }

    /// Decodes a byte-per-channel color without an alpha byte on the wire,
    /// r, g, b; the alpha channel is implicitly fully opaque.
    pub fn decode_u8_rgb(bytes: &[u8], pos: usize) -> (r: Result<(ColorBytes, usize), DecodeError>)
        ensures
            pos + 3 <= bytes@.len() ==> (r matches Ok(t) && t.0 == spec_color3(bytes@, pos as int)
                && t.1 == pos + 3),
            pos + 3 > bytes@.len() ==> (r matches Err(e) && e == DecodeError::ShortRead),
    {
        if bytes.len() < 3 || pos > bytes.len() - 3 {
            return Err(DecodeError::ShortRead);
        }
        Ok((ColorBytes { r: bytes[pos], g: bytes[pos + 1], b: bytes[pos + 2], a: 0xff }, pos + 3))
    }
}

impl BoundingBox {
    /// Decodes two 3-component extrema, minimum then maximum.
    pub fn decode(bytes: &[u8], pos: usize) -> (r: Result<(BoundingBox, usize), DecodeError>)
        ensures
            pos + 24 <= bytes@.len() ==> (r matches Ok(t) && t.0 == spec_bbox(bytes@, pos as int)
                && t.1 == pos + 24),
            pos + 24 > bytes@.len() ==> (r matches Err(e) && e == DecodeError::ShortRead),
    {
        let (min, p1) = match Vec3::decode(bytes, pos) {
            Ok(t) => t,
            Err(e) => {
                return Err(e);
            },
        };
        let (max, p2) = match Vec3::decode(bytes, p1) {
            Ok(t) => t,
            Err(e) => {
                return Err(e);
            },
        };
        Ok((BoundingBox { min, max }, p2))
    }
}

/// A 4×4 transform read as 16 consecutive 32-bit floats, row by row; each
/// entry holds the raw bit pattern of the wire float.
pub struct Matrix {
    pub entries: Vec<u32>,
}

impl View for Matrix {
    type V = Seq<u32>;

    open spec fn view(&self) -> Seq<u32> {
        self.entries@
    }
}

/// The 16 transform entries stored at `s[i..i + 64]`.
pub open spec fn spec_matrix(s: Seq<u8>, i: int) -> Seq<u32> {
    Seq::new(16, |j: int| le32(s, i + 4 * j))
}

impl Matrix {
    /// Decodes 16 little-endian 32-bit float bit patterns.
    #[verifier::loop_isolation(false)]
    pub fn decode(bytes: &[u8], pos: usize) -> (r: Result<(Matrix, usize), DecodeError>)
        ensures
            pos + 64 <= bytes@.len() ==> (r matches Ok(t) && t.0@ == spec_matrix(bytes@, pos as int)
                && t.1 == pos + 64),
            pos + 64 > bytes@.len() ==> (r matches Err(e) && e == DecodeError::ShortRead),
    {
        if bytes.len() < 64 || pos > bytes.len() - 64 {
            return Err(DecodeError::ShortRead);
        }
        let mut entries: Vec<u32> = Vec::new();
        let mut cur: usize = pos;
        let mut i: usize = 0;
        while i < 16
            invariant
                0 <= i <= 16,
                cur == pos + 4 * i,
                entries@.len() == i,
                forall|j: int| 0 <= j < i ==> entries@[j] == le32(bytes@, pos + 4 * j),
            decreases 16 - i,
        {
            let (v, q) = match read_u32(bytes, cur) {
                Ok(t) => t,
                Err(_) => {
                    return Err(DecodeError::ShortRead);
                },
            };
            entries.push(v);
            cur = q;
            i = i + 1;
        }
        let out = Matrix { entries };
        proof {
            assert(out@ =~= spec_matrix(bytes@, pos as int));
        }
        Ok((out, cur))
    }
}

} // verus!
