//! The 32-bit content hash used for structural hashing of material
//! attributes: FNV-1a folded over an explicitly serialized byte sequence, so
//! the result depends only on the bytes and never on an in-memory layout.

use vstd::prelude::*;

verus! {

/// One FNV-1a round: fold the byte into the running hash.
pub open spec fn fnv1a_step(h: u32, b: u8) -> u32 {
    (((h ^ (b as u32)) as int) * 0x01000193) as u32
}

/// FNV-1a folded over `s`, starting from the running hash `h`.
pub open spec fn fnv1a_from(h: u32, s: Seq<u8>) -> u32
    decreases s.len(),
{
    if s.len() == 0 {
        h
    } else {
        fnv1a_from(fnv1a_step(h, s[0]), s.drop_first())
    }
}

/// The 32-bit FNV-1a hash of a byte sequence.
pub open spec fn fnv1a(s: Seq<u8>) -> u32 {
    fnv1a_from(0x811c9dc5, s)
}

/// Computes the 32-bit FNV-1a hash of `bytes`.
pub fn fnv1a_hash(bytes: &[u8]) -> (r: u32)
    ensures
        r == fnv1a(bytes@),
{
    let mut h: u32 = 0x811c9dc5;
    let mut i: usize = 0;
    proof {
        assert(bytes@.skip(0) =~= bytes@);
    }
    while i < bytes.len()
        invariant
            i <= bytes@.len(),
            fnv1a_from(h, bytes@.skip(i as int)) == fnv1a(bytes@),
        decreases bytes@.len() - i,
    {
        let b = bytes[i];
        let wide: u64 = ((h ^ (b as u32)) as u64) * 0x01000193;
        proof {
            assert(bytes@.skip(i as int)[0] == bytes@[i as int]);
            assert(bytes@.skip(i as int).drop_first() =~= bytes@.skip(i as int + 1));
            assert(wide as u32 == fnv1a_step(h, b));
        }
        h =
        #[verifier::truncate]
        (wide as u32);
        i = i + 1;
    }
    proof {
        assert(bytes@.skip(i as int) =~= Seq::<u8>::empty());
    }
    h
}

} // verus!
