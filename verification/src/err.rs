//! Error kinds shared by every decoder in the crate.

use vstd::prelude::*;

verus! {

/// Why a decode call failed.
///
/// Every failure is fatal to the current chunk: the caller aborts, no decoder
/// retries or substitutes a default value.
#[derive(Clone, Copy, Debug, PartialEq, Eq, Structural)]
pub enum DecodeError {
    /// Fewer bytes remain than a primitive or a declared-length field requires.
    ShortRead,
    /// A chunk header's type code matched no known chunk kind.
    UnrecognizedChunkType,
    /// A declared length was negative where only non-negative lengths are valid.
    InvalidLength,
}

} // verus!
