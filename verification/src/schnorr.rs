//! The raw 64-byte schnorr signature, as the `k256` crate accepts it.

use core::cmp::Ordering;
use vstd::prelude::*;
use vstd::array::array_as_slice;
use crate::error::CryptoError;
use crate::lexical::{compare_bytes, lex_order, same_bytes};

verus! {

/// Whether `k256` parses these bytes as a schnorr signature.
pub uninterp spec fn schnorr_accepts(bytes: Seq<u8>) -> bool;

/// Calls `k256::schnorr::Signature::try_from` on a 64-byte slice and, where it
/// accepts, `Signature::to_bytes` on what it parsed.
///
/// Trusted: the parser's verdict depends on the bytes alone, and an accepted
/// signature serializes to the very bytes it was parsed from (both halves are
/// read as canonical big-endian integers and written back as such).
#[verifier::external_body]
fn k256_parse(bytes: &[u8]) -> (r: Option<[u8; 64]>)
    requires
        bytes@.len() == 64,
    ensures
        r.is_some() == schnorr_accepts(bytes@),
        r matches Some(raw) ==> raw@ == bytes@,
{
    match k256::schnorr::Signature::try_from(bytes) {
        Ok(sig) => Some(sig.to_bytes()),
        Err(_) => None,
    }
}

/// A schnorr signature: 64 bytes that the elliptic-curve primitives accept.
///
/// The bytes are private, and every value is made by [`SchnorrSignature::from_slice`],
/// so no value holds bytes that the primitives refuse.
#[derive(Debug, Clone, Copy, Ord)]
pub struct SchnorrSignature {
    bytes: [u8; 64],
}

impl View for SchnorrSignature {
    type V = Seq<u8>;

    closed spec fn view(&self) -> Seq<u8> {
        self.bytes@
    }
}

impl SchnorrSignature {
    /// Size of a schnorr signature in bytes.
    pub const BYTE_SIZE: usize = 64;

    #[verifier::type_invariant]
    closed spec fn accepted(self) -> bool {
        schnorr_accepts(self.bytes@)
    }

    /// What every value in a running program satisfies: it is 64 bytes long
    /// and the primitives accept it.
    pub open spec fn is_valid(self) -> bool {
        self@.len() == 64 && schnorr_accepts(self@)
    }

    /// A signature is its 64 bytes and nothing more: two values with the same
    /// bytes are the same value.
    pub proof fn lemma_determined_by_bytes(a: SchnorrSignature, b: SchnorrSignature)
        ensures
            a@.len() == 64,
            a@ == b@ <==> a == b,
    {
        if a@ == b@ {
            assert(a.bytes =~= b.bytes);
        }
    }

    /// Parses a schnorr signature. Succeeds exactly on the 64-byte slices
    /// that the primitives accept, and then holds the slice's bytes.
    pub fn from_slice(bytes: &[u8]) -> (r: Result<SchnorrSignature, CryptoError>)
        ensures
            r.is_ok() <==> bytes@.len() == 64 && schnorr_accepts(bytes@),
            r matches Ok(sig) ==> sig@ == bytes@ && sig.is_valid(),
            r matches Err(e) ==> e == CryptoError::InvalidSignature,
    {
        if bytes.len() != 64 {
            return Err(CryptoError::InvalidSignature);
        }
        match k256_parse(bytes) {
            Some(raw) => Ok(SchnorrSignature { bytes: raw }),
            None => Err(CryptoError::InvalidSignature),
        }
    }

    /// The 64 bytes of the signature.
    pub fn to_bytes(&self) -> (out: [u8; 64])
        ensures
            out@ == self@,
            self.is_valid(),
    {
        proof {
            use_type_invariant(self);
        }
        self.bytes
    }
}

impl PartialEq for SchnorrSignature {
    fn eq(&self, other: &Self) -> (r: bool) {
        same_bytes(array_as_slice(&self.bytes), array_as_slice(&other.bytes))
    }
}

impl Eq for SchnorrSignature {

}

impl vstd::std_specs::cmp::PartialEqSpecImpl for SchnorrSignature {
    open spec fn obeys_eq_spec() -> bool {
        true
    }

    /// Signatures are equal where their bytes are.
    open spec fn eq_spec(&self, other: &Self) -> bool {
        self@ == other@
    }
}

impl PartialOrd for SchnorrSignature {
    fn partial_cmp(&self, other: &Self) -> (r: Option<Ordering>) {
        Some(compare_bytes(array_as_slice(&self.bytes), array_as_slice(&other.bytes)))
    }
}

impl vstd::std_specs::cmp::PartialOrdSpecImpl for SchnorrSignature {
    open spec fn obeys_partial_cmp_spec() -> bool {
        true
    }

    /// Signatures are ordered as their bytes are, lexicographically.
    open spec fn partial_cmp_spec(&self, other: &Self) -> Option<Ordering> {
        Some(lex_order(self@, other@))
    }
}

} // verus!
