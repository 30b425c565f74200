//! The byte image of a complex value: a fixed sixteen-byte encoding, each
//! component in little-endian order, the real one first. Construction
//! from bytes validates the length instead of reading out of bounds.

use vstd::prelude::*;

use vstd::bytes::{
    lemma_auto_spec_u64_to_from_le_bytes, spec_u64_from_le_bytes, spec_u64_to_le_bytes,
    u64_from_le_bytes, u64_to_le_bytes,
};
use vstd::slice::slice_subrange;

use crate::complex::Complex;

verus! {

/// The size of the byte image: two components of eight bytes each.
pub const BYTE_LEN: usize = 16;

/// Why a byte-level constructor refused its input.
#[derive(Clone, Copy, PartialEq, Eq, Structural, Debug)]
pub enum ComplexError {
    /// The byte sequence does not have the exact size of the value.
    SizeMismatch,
}

/// The byte image of a value.
pub open spec fn spec_as_bytes(a: Complex) -> Seq<u8> {
    spec_u64_to_le_bytes(a.real) + spec_u64_to_le_bytes(a.imaginary)
}

/// The value that a sixteen-byte sequence encodes.
pub open spec fn spec_from_bytes(s: Seq<u8>) -> Complex
    recommends
        s.len() == BYTE_LEN,
{
    Complex {
        real: spec_u64_from_le_bytes(s.subrange(0, 8)),
        imaginary: spec_u64_from_le_bytes(s.subrange(8, 16)),
    }
}

impl Complex {
    /// The byte image of the value.
    pub fn as_bytes(&self) -> (r: Vec<u8>)
        ensures
            r@ == spec_as_bytes(*self),
            r@.len() == BYTE_LEN,
    {
        let mut v: Vec<u8> = u64_to_le_bytes(self.real);
        let mut w: Vec<u8> = u64_to_le_bytes(self.imaginary);
        v.append(&mut w);
        v
    }

    /// The byte image, under the name of the owned-copy variant.
    pub fn to_bytes(&self) -> (r: Vec<u8>)
        ensures
            r@ == spec_as_bytes(*self),
            r@.len() == BYTE_LEN,
    {
        self.as_bytes()
    }

    /// The value a byte sequence encodes. A sequence of any other length
    /// than sixteen is refused with a size mismatch.
    pub fn from_bytes(bytes: &[u8]) -> (r: Result<Self, ComplexError>)
        ensures
            bytes@.len() == BYTE_LEN ==> r == Ok::<Complex, ComplexError>(
                spec_from_bytes(bytes@),
            ),
            bytes@.len() != BYTE_LEN ==> r == Err::<Complex, ComplexError>(
                ComplexError::SizeMismatch,
            ),
    {
        if bytes.len() != BYTE_LEN {
            return Err(ComplexError::SizeMismatch);
        }
        let re: u64 = u64_from_le_bytes(slice_subrange(bytes, 0, 8));
        let im: u64 = u64_from_le_bytes(slice_subrange(bytes, 8, 16));
        Ok(Self { real: re, imaginary: im })
    }
}

/// Reading back the byte image restores the value, for every value.
pub proof fn lemma_bytes_round_trip(a: Complex)
    ensures
        spec_as_bytes(a).len() == BYTE_LEN,
        spec_from_bytes(spec_as_bytes(a)) == a,
{
    lemma_auto_spec_u64_to_from_le_bytes();
    let s = spec_as_bytes(a);
    assert(s.subrange(0, 8) =~= spec_u64_to_le_bytes(a.real));
    assert(s.subrange(8, 16) =~= spec_u64_to_le_bytes(a.imaginary));
}

} // verus!
