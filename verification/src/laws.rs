//! What holds of the encoding, of decoding, and of the order between
//! signatures, for all values.

use core::cmp::Ordering;
use vstd::prelude::*;
use crate::lexical::{
    lemma_lex_less_at, lemma_lex_total, lemma_lex_transitive, lemma_part_at_end, lemma_parts_somewhere, lex_order,
    part_at,
};
use crate::schnorr::{schnorr_accepts, SchnorrSignature};
use crate::sighash::TapSighashType;
use crate::signature::{decode, encode, Signature, SignatureView};

verus! {

/// The order of two bytes.
pub open spec fn byte_order(x: u8, y: u8) -> Ordering {
    if x == y {
        Ordering::Equal
    } else if x < y {
        Ordering::Less
    } else {
        Ordering::Greater
    }
}

/// The encoding is 64 bytes long for the default hash type and 65 bytes long
/// for any other.
pub proof fn lemma_encoding_length(sig: Signature)
    ensures
        encode(sig@).len() == (if sig.sighash_type == TapSighashType::Default {
            64int
        } else {
            65int
        }),
{
    SchnorrSignature::lemma_determined_by_bytes(sig.signature, sig.signature);
}

/// Decoding inverts encoding: the encoding of a signature whose raw bytes the
/// primitives accept decodes to that signature, whatever its hash type. For
/// the default hash type the encoding has no code byte; for any other it ends
/// in one.
pub proof fn lemma_decode_inverts_encode(sig: Signature)
    requires
        sig.signature.is_valid(),
    ensures
        decode(encode(sig@)) == Ok::<SignatureView, crate::error::SigFromSliceError>(sig@),
{
    let v = sig@;
    if v.sighash_type != TapSighashType::Default {
        TapSighashType::lemma_of_code_inverts_code(v.sighash_type);
        assert(encode(v).take(64) =~= v.raw);
    }
}

/// Decoding accepts a code byte that spells out the default hash type, but
/// encoding never writes one: such 65 bytes decode to a signature whose
/// encoding is their first 64 bytes.
pub proof fn lemma_redundant_default_is_dropped(bytes: Seq<u8>)
    requires
        bytes.len() == 65,
        bytes[64] == TapSighashType::Default.code(),
        schnorr_accepts(bytes.take(64)),
    ensures
        decode(bytes) matches Ok(v) && v.sighash_type == TapSighashType::Default && encode(v)
            == bytes.take(64),
        decode(bytes) matches Ok(v) && encode(v).len() == 64 && encode(v) != bytes,
{
}

/// Two signatures are equal exactly where their encodings are the same bytes,
/// and equal signatures feed the same bytes to a hasher.
pub proof fn lemma_equal_iff_same_encoding(a: Signature, b: Signature)
    ensures
        a == b <==> encode(a@) == encode(b@),
        a == b <==> a@ == b@,
        a == b ==> a.hash_input() == b.hash_input(),
{
    SchnorrSignature::lemma_determined_by_bytes(a.signature, b.signature);
    SchnorrSignature::lemma_determined_by_bytes(b.signature, a.signature);
    let ea = encode(a@);
    let eb = encode(b@);
    if ea == eb {
        assert(ea.len() == eb.len());
        assert(ea.take(64) =~= a@.raw);
        assert(eb.take(64) =~= b@.raw);
        if a.sighash_type != TapSighashType::Default {
            assert(ea[64] == a.sighash_type.code());
            assert(eb[64] == b.sighash_type.code());
            TapSighashType::lemma_code_injective(a.sighash_type, b.sighash_type);
        }
    }
}

/// Comparing two signatures gives `Equal` exactly where they are equal.
pub proof fn lemma_order_agrees_with_equality(a: Signature, b: Signature)
    ensures
        lex_order(encode(a@), encode(b@)) == Ordering::Equal <==> a == b,
{
    lemma_equal_iff_same_encoding(a, b);
}

/// Of two different signatures exactly one comes before the other.
pub proof fn lemma_order_is_total(a: Signature, b: Signature)
    ensures
        lex_order(encode(a@), encode(b@)) == Ordering::Less <==> lex_order(encode(b@), encode(a@))
            == Ordering::Greater,
{
    lemma_lex_total(encode(a@), encode(b@));
    lemma_lex_total(encode(b@), encode(a@));
}

/// The order is transitive: a signature that comes before a second, which
/// comes before a third, comes before the third.
pub proof fn lemma_order_is_transitive(a: Signature, b: Signature, c: Signature)
    requires
        lex_order(encode(a@), encode(b@)) == Ordering::Less,
        lex_order(encode(b@), encode(c@)) == Ordering::Less,
    ensures
        lex_order(encode(a@), encode(c@)) == Ordering::Less,
{
    lemma_lex_transitive(encode(a@), encode(b@), encode(c@));
    lemma_lex_total(encode(a@), encode(c@));
}

/// The order of the encodings is the order of the fields: signatures with
/// different raw bytes are ordered as their raw bytes are, and signatures with
/// the same raw bytes as the codes of their hash types are, the default one
/// first.
pub proof fn lemma_order_by_fields(a: Signature, b: Signature)
    ensures
        lex_order(encode(a@), encode(b@)) == (if a.signature@ != b.signature@ {
            lex_order(a.signature@, b.signature@)
        } else {
            byte_order(a.sighash_type.code(), b.sighash_type.code())
        }),
{
    SchnorrSignature::lemma_determined_by_bytes(a.signature, b.signature);
    SchnorrSignature::lemma_determined_by_bytes(b.signature, a.signature);
    lemma_equal_iff_same_encoding(a, b);
    TapSighashType::lemma_code_injective(a.sighash_type, b.sighash_type);
    let ra = a.signature@;
    let rb = b.signature@;
    let ea = encode(a@);
    let eb = encode(b@);
    if ra != rb {
        let i = lemma_parts_somewhere(ra, rb);
        lemma_part_at_end(ra, rb, i);
        assert(part_at(ea, eb, i));
        lemma_lex_less_at(ra, rb, i);
        lemma_lex_less_at(ea, eb, i);
    } else if a.sighash_type != b.sighash_type {
        assert(part_at(ea, eb, 64));
        lemma_lex_less_at(ea, eb, 64);
    }
}

} // verus!
