//! A taproot signature with its hash type, and its consensus encoding.

use core::cmp::Ordering;
use core::hash::{Hash, Hasher};
use vstd::prelude::*;
use vstd::slice::slice_subrange;
use crate::laws::lemma_decode_inverts_encode;
use crate::lexical::{compare_bytes, lex_order};
use crate::error::{CryptoError, SigFromSliceError};
use crate::schnorr::{schnorr_accepts, SchnorrSignature};
use crate::serialized_signature::{SerializedSignature, MAX_LEN};
use crate::sighash::{InvalidSighashTypeError, TapSighashType};

verus! {

/// What a [`Signature`] is to a contract: the 64 raw bytes and the hash type.
pub struct SignatureView {
    /// The bytes of the schnorr signature.
    pub raw: Seq<u8>,
    /// The hash type.
    pub sighash_type: TapSighashType,
}

/// The consensus encoding of a signature: the raw bytes, followed by the hash
/// type's code unless the hash type is the default one.
pub open spec fn encode(v: SignatureView) -> Seq<u8> {
    if v.sighash_type == TapSighashType::Default {
        v.raw
    } else {
        v.raw.push(v.sighash_type.code())
    }
}

/// What a byte string decodes to.
///
/// Of 64 bytes the whole is the raw signature and the hash type is the default
/// one. Of 65 bytes the last is the hash type's code, which is read first, and
/// the 64 before it are the raw signature. Any other length is refused.
pub open spec fn decode(bytes: Seq<u8>) -> Result<SignatureView, SigFromSliceError> {
    if bytes.len() == 64 {
        decode_raw(bytes, TapSighashType::Default)
    } else if bytes.len() == 65 {
        match TapSighashType::of_code(bytes[64]) {
            Some(sighash_type) => decode_raw(bytes.take(64), sighash_type),
            None => Err(SigFromSliceError::SighashType(InvalidSighashTypeError(bytes[64] as u32))),
        }
    } else {
        Err(SigFromSliceError::InvalidSignatureSize(bytes.len() as usize))
    }
}

/// The last step of decoding: the 64 raw bytes stand if the primitives accept
/// them.
pub open spec fn decode_raw(raw: Seq<u8>, sighash_type: TapSighashType) -> Result<
    SignatureView,
    SigFromSliceError,
> {
    if schnorr_accepts(raw) {
        Ok(SignatureView { raw, sighash_type })
    } else {
        Err(SigFromSliceError::Secp256k1(CryptoError::InvalidSignature))
    }
}

/// Feeds a byte string to a hasher, as std hashes a slice of bytes.
///
/// Trusted: calls `<[u8] as Hash>::hash`; nothing is claimed of the hasher's
/// state afterwards.
#[verifier::external_body]
fn hash_bytes<H: Hasher>(bytes: &[u8], state: &mut H) {
    bytes.hash(state)
}

/// A BIP340-341 serialized taproot signature with the corresponding hash type.
///
/// Equality, order and hash all go by the encoding. Two signatures are equal
/// where their encodings are the same bytes, they are ordered as their
/// encodings are, byte by byte, and hashing feeds the encoding to the hasher.
/// The derived `Ord` compares the raw bytes and then the hash types, in the
/// order in which [`TapSighashType`] declares them, which is the same order.
#[derive(Debug, Clone, Copy, Ord)]
pub struct Signature {
    /// The underlying schnorr signature.
    pub signature: SchnorrSignature,
    /// The corresponding hash type.
    pub sighash_type: TapSighashType,
}

impl View for Signature {
    type V = SignatureView;

    open spec fn view(&self) -> SignatureView {
        SignatureView { raw: self.signature@, sighash_type: self.sighash_type }
    }
}

impl Signature {
    /// The bytes that hashing a signature feeds to the hasher: its encoding.
    pub open spec fn hash_input(self) -> Seq<u8> {
        encode(self@)
    }

    /// Puts a hash type beside the outcome of parsing the raw signature: the
    /// signature where the parse succeeded, its failure otherwise.
    pub fn from_parsed(
        parsed: Result<SchnorrSignature, CryptoError>,
        sighash_type: TapSighashType,
    ) -> (r: Result<Signature, SigFromSliceError>)
        ensures
            match parsed {
                Ok(signature) => r matches Ok(sig) && sig.signature == signature
                    && sig.sighash_type == sighash_type,
                Err(e) => r matches Err(err) && err == SigFromSliceError::Secp256k1(e),
            },
    {
        match parsed {
            Ok(signature) => Ok(Signature { signature, sighash_type }),
            Err(e) => Err(SigFromSliceError::from(e)),
        }
    }

    /// Deserialize from slice.
    ///
    /// The result is what [`decode`] says of the bytes. In particular a slice
    /// of any length but 64 and 65 is refused with its length, 64 bytes never
    /// give a hash type other than the default one, and raw bytes that the
    /// primitives refuse give an error, never a signature.
    pub fn from_slice(sl: &[u8]) -> (r: Result<Signature, SigFromSliceError>)
        ensures
            match r {
                Ok(sig) => decode(sl@) == Ok::<SignatureView, SigFromSliceError>(sig@)
                    && sig.signature.is_valid(),
                Err(e) => decode(sl@) == Err::<SignatureView, SigFromSliceError>(e),
            },
            sl@.len() != 64 && sl@.len() != 65 ==> r == Err::<Signature, SigFromSliceError>(
                SigFromSliceError::InvalidSignatureSize(sl.len()),
            ),
            sl@.len() == 64 ==> (r matches Ok(sig) ==> sig.sighash_type
                == TapSighashType::Default),
            (sl@.len() == 64 && !schnorr_accepts(sl@)) ==> r == Err::<Signature, SigFromSliceError>(
                SigFromSliceError::Secp256k1(CryptoError::InvalidSignature),
            ),
    {
        let len: usize = sl.len();
        if len == 64 {
            let parsed = SchnorrSignature::from_slice(sl);
            Signature::from_parsed(parsed, TapSighashType::Default)
        } else if len == 65 {
            let sighash_type = match TapSighashType::from_consensus_u8(sl[64]) {
                Ok(sighash_type) => sighash_type,
                Err(e) => {
                    return Err(SigFromSliceError::from(e));
                },
            };
            let parsed = SchnorrSignature::from_slice(slice_subrange(sl, 0, 64));
            Signature::from_parsed(parsed, sighash_type)
        } else {
            Err(SigFromSliceError::InvalidSignatureSize(len))
        }
    }

    /// Serializes the signature (without heap allocation).
    ///
    /// The buffer holds the consensus encoding: 64 bytes for the default hash
    /// type, 65 for any other. Decoding those bytes gives the signature back.
    pub fn serialize(self) -> (out: SerializedSignature)
        ensures
            out@ == encode(self@),
            decode(out@) == Ok::<SignatureView, SigFromSliceError>(self@),
            out@.len() == (if self.sighash_type == TapSighashType::Default {
                64int
            } else {
                65int
            }),
    {
        let mut buf: [u8; MAX_LEN] = [0u8; MAX_LEN];
        let ser_sig: [u8; 64] = self.signature.to_bytes();
        let mut i: usize = 0;
        while i < 64
            invariant
                i <= 64,
                forall|j: int| 0 <= j < i ==> buf@[j] == ser_sig@[j],
            decreases 64 - i,
        {
            buf[i] = ser_sig[i];
            i += 1;
        }
        let len: usize = if self.sighash_type.is_default() {
            64
        } else {
            buf[64] = self.sighash_type.to_consensus_u8();
            65
        };
        let out = SerializedSignature::from_raw_parts(buf, len);
        proof {
            assert(out@ =~= encode(self@));
            lemma_decode_inverts_encode(self);
        }
        out
    }

    /// Serialize Signature.
    ///
    /// Note: this allocates on the heap, prefer [`serialize`](Self::serialize)
    /// if vec is not needed.
    pub fn to_vec(self) -> (out: Vec<u8>)
        ensures
            out@ == encode(self@),
            decode(out@) == Ok::<SignatureView, SigFromSliceError>(self@),
    {
        self.serialize().to_vec()
    }
}

impl PartialEq for Signature {
    fn eq(&self, other: &Self) -> (r: bool) {
        self.signature == other.signature && self.sighash_type == other.sighash_type
    }
}

impl Eq for Signature {

}

impl vstd::std_specs::cmp::PartialEqSpecImpl for Signature {
    open spec fn obeys_eq_spec() -> bool {
        true
    }

    /// Signatures are equal where their raw bytes and their hash types are.
    open spec fn eq_spec(&self, other: &Self) -> bool {
        self@ == other@
    }
}

impl PartialOrd for Signature {
    fn partial_cmp(&self, other: &Self) -> (r: Option<Ordering>) {
        let a = self.serialize();
        let b = other.serialize();
        Some(compare_bytes(a.as_slice(), b.as_slice()))
    }
}

impl vstd::std_specs::cmp::PartialOrdSpecImpl for Signature {
    open spec fn obeys_partial_cmp_spec() -> bool {
        true
    }

    /// Signatures are ordered as their encodings are, lexicographically.
    open spec fn partial_cmp_spec(&self, other: &Self) -> Option<Ordering> {
        Some(lex_order(encode(self@), encode(other@)))
    }
}

impl Hash for Signature {
    /// Hashes the encoding of the signature.
    fn hash<H: Hasher>(&self, state: &mut H) {
        let ser = self.serialize();
        hash_bytes(ser.as_slice(), state)
    }
}

} // verus!
