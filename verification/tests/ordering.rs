use std::cmp::Ordering;
use std::collections::hash_map::DefaultHasher;
use std::collections::{BTreeSet, HashSet};
use std::hash::{Hash, Hasher};

use taproot_sig::lexical::{compare_bytes, parting, same_bytes};
use taproot_sig::schnorr::SchnorrSignature;
use taproot_sig::sighash::TapSighashType;
use taproot_sig::signature::Signature;

const ALL_TYPES: [TapSighashType; 7] = [
    TapSighashType::Default,
    TapSighashType::All,
    TapSighashType::NoOutputs,
    TapSighashType::Single,
    TapSighashType::AllPlusAnyoneCanPay,
    TapSighashType::NonePlusAnyoneCanPay,
    TapSighashType::SinglePlusAnyoneCanPay,
];

fn raw(first: u8, last: u8) -> SchnorrSignature {
    let mut bytes = [0x01u8; 64];
    bytes[0] = first;
    bytes[63] = last;
    SchnorrSignature::from_slice(&bytes).unwrap()
}

fn samples() -> Vec<Signature> {
    let mut out = Vec::new();
    for signature in [raw(1, 1), raw(1, 2), raw(2, 1), raw(0x7F, 0xFF)] {
        for sighash_type in ALL_TYPES {
            out.push(Signature { signature, sighash_type });
        }
    }
    out
}

fn hash_of(sig: &Signature) -> u64 {
    let mut hasher = DefaultHasher::new();
    sig.hash(&mut hasher);
    hasher.finish()
}

#[test]
fn byte_strings_compare_lexicographically() {
    assert_eq!(compare_bytes(&[], &[]), Ordering::Equal);
    assert_eq!(compare_bytes(&[], &[0]), Ordering::Less);
    assert_eq!(compare_bytes(&[0], &[]), Ordering::Greater);
    assert_eq!(compare_bytes(&[1, 2, 3], &[1, 2, 3]), Ordering::Equal);
    assert_eq!(compare_bytes(&[1, 2], &[1, 2, 0]), Ordering::Less);
    assert_eq!(compare_bytes(&[1, 2, 0], &[1, 2]), Ordering::Greater);
    assert_eq!(compare_bytes(&[1, 3], &[1, 2, 9]), Ordering::Greater);
    assert_eq!(compare_bytes(&[0x7F], &[0x80]), Ordering::Less);
    assert_eq!(compare_bytes(&[0xFF, 0], &[0xFF, 1]), Ordering::Less);
}

#[test]
fn byte_strings_part_at_the_first_difference() {
    assert_eq!(parting(&[], &[]), 0);
    assert_eq!(parting(&[1, 2, 3], &[1, 2, 4]), 2);
    assert_eq!(parting(&[1, 2], &[1, 2, 4]), 2);
    assert_eq!(parting(&[9], &[1, 2, 4]), 0);
    assert_eq!(parting(&[1, 2, 3], &[1, 2, 3]), 3);
    assert!(same_bytes(&[1, 2, 3], &[1, 2, 3]));
    assert!(!same_bytes(&[1, 2, 3], &[1, 2]));
    assert!(!same_bytes(&[1, 2, 3], &[1, 2, 4]));
    assert!(same_bytes(&[], &[]));
}

#[test]
fn signatures_are_equal_where_their_encodings_are() {
    let all = samples();
    for a in &all {
        for b in &all {
            let same_encoding = a.serialize().as_slice() == b.serialize().as_slice();
            assert_eq!(a == b, same_encoding);
            assert_eq!(a == b, a.to_vec() == b.to_vec());
        }
    }
}

#[test]
fn equal_signatures_hash_alike() {
    let all = samples();
    for a in &all {
        let copy = Signature::from_slice(&a.to_vec()).unwrap();
        assert_eq!(*a, copy);
        assert_eq!(hash_of(a), hash_of(&copy));
    }
}

#[test]
fn hash_is_the_hash_of_the_encoding() {
    for a in samples() {
        let mut hasher = DefaultHasher::new();
        a.serialize().as_slice().hash(&mut hasher);
        assert_eq!(hash_of(&a), hasher.finish());
    }
}

#[test]
fn signatures_are_ordered_as_their_encodings() {
    let all = samples();
    for a in &all {
        for b in &all {
            let by_encoding = a.to_vec().cmp(&b.to_vec());
            assert_eq!(a.partial_cmp(b), Some(by_encoding));
            assert_eq!(a.cmp(b), by_encoding);
            assert_eq!(a < b, by_encoding == Ordering::Less);
            assert_eq!(a.cmp(b) == Ordering::Equal, a == b);
        }
    }
}

#[test]
fn default_hash_type_comes_before_the_others() {
    let signature = raw(5, 5);
    let plain = Signature { signature, sighash_type: TapSighashType::Default };
    for sighash_type in &ALL_TYPES[1..] {
        let tagged = Signature { signature, sighash_type: *sighash_type };
        assert!(plain < tagged);
        assert_eq!(tagged.partial_cmp(&plain), Some(Ordering::Greater));
    }
}

#[test]
fn raw_signatures_are_ordered_as_their_bytes() {
    assert!(raw(1, 1) < raw(1, 2));
    assert!(raw(1, 0xFF) < raw(2, 1));
    assert_eq!(raw(3, 3).partial_cmp(&raw(3, 3)), Some(Ordering::Equal));
    assert_eq!(raw(3, 3).cmp(&raw(3, 3)), Ordering::Equal);
    assert!(raw(3, 3) == raw(3, 3));
    assert!(raw(3, 3) != raw(3, 4));
}

#[test]
fn signatures_serve_as_keys() {
    let all = samples();
    let mut ordered = BTreeSet::new();
    let mut hashed = HashSet::new();
    for a in &all {
        ordered.insert(*a);
        hashed.insert(*a);
        ordered.insert(*a);
        hashed.insert(*a);
    }
    assert_eq!(ordered.len(), all.len());
    assert_eq!(hashed.len(), all.len());
    let encodings: Vec<Vec<u8>> = ordered.iter().map(|s| s.to_vec()).collect();
    let mut sorted = encodings.clone();
    sorted.sort();
    assert_eq!(encodings, sorted);
}
