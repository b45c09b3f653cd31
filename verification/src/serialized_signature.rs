//! The encoded form of a taproot signature, held without heap allocation.

use vstd::prelude::*;
use vstd::array::array_as_slice;
use vstd::slice::{slice_subrange, slice_to_vec};
use crate::lexical::same_bytes;

verus! {

/// The longest encoding of a taproot signature, in bytes.
pub const MAX_LEN: usize = 65;

/// An encoded taproot signature: the first `len` bytes of a fixed array.
///
/// Only encoding a signature makes one, so `len` is 64 or 65.
#[derive(Debug, Clone, Copy)]
pub struct SerializedSignature {
    data: [u8; MAX_LEN],
    len: usize,
}

impl View for SerializedSignature {
    type V = Seq<u8>;

    closed spec fn view(&self) -> Seq<u8> {
        self.data@.subrange(0, self.len as int)
    }
}

impl SerializedSignature {
    #[verifier::type_invariant]
    closed spec fn len_is_64_or_65(self) -> bool {
        self.len == 64 || self.len == 65
    }

    /// Makes the buffer that holds the first `len` bytes of `data`.
    pub(crate) fn from_raw_parts(data: [u8; MAX_LEN], len: usize) -> (out: SerializedSignature)
        requires
            len == 64 || len == 65,
        ensures
            out@ == data@.subrange(0, len as int),
    {
        SerializedSignature { data, len }
    }

    /// The number of encoded bytes: 64 or 65.
    pub fn len(&self) -> (n: usize)
        ensures
            n == self@.len(),
            n == 64 || n == 65,
    {
        proof {
            use_type_invariant(self);
        }
        self.len
    }

    /// The encoded bytes.
    pub fn as_slice(&self) -> (out: &[u8])
        ensures
            out@ == self@,
    {
        proof {
            use_type_invariant(self);
        }
        slice_subrange(array_as_slice(&self.data), 0, self.len)
    }

    /// A heap-allocated copy of the encoded bytes.
    pub fn to_vec(&self) -> (out: Vec<u8>)
        ensures
            out@ == self@,
    {
        slice_to_vec(self.as_slice())
    }
}

impl PartialEq for SerializedSignature {
    fn eq(&self, other: &Self) -> (r: bool) {
        same_bytes(self.as_slice(), other.as_slice())
    }
}

impl Eq for SerializedSignature {

}

impl vstd::std_specs::cmp::PartialEqSpecImpl for SerializedSignature {
    open spec fn obeys_eq_spec() -> bool {
        true
    }

    /// Buffers are equal where they hold the same encoded bytes.
    open spec fn eq_spec(&self, other: &Self) -> bool {
        self@ == other@
    }
}

} // verus!
