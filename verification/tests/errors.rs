use taproot_sig::decimal::push_decimal;
use taproot_sig::error::{CryptoError, ErrorSource, SigFromSliceError};
use taproot_sig::sighash::InvalidSighashTypeError;

#[test]
fn wrong_length_message_holds_the_length() {
    assert_eq!(
        SigFromSliceError::InvalidSignatureSize(63).message(),
        "invalid taproot signature size: 63"
    );
    assert_eq!(
        SigFromSliceError::InvalidSignatureSize(0).message(),
        "invalid taproot signature size: 0"
    );
    assert_eq!(
        SigFromSliceError::InvalidSignatureSize(1000).message(),
        "invalid taproot signature size: 1000"
    );
}

#[test]
fn wrapping_messages_hold_the_tag_and_the_cause() {
    assert_eq!(
        SigFromSliceError::SighashType(InvalidSighashTypeError(4)).message(),
        "sighash: invalid sighash type 4"
    );
    assert_eq!(
        SigFromSliceError::Secp256k1(CryptoError::InvalidSignature).message(),
        "secp256k1: invalid signature"
    );
    assert_eq!(CryptoError::InvalidSignature.message(), "invalid signature");
}

#[test]
fn source_is_the_wrapped_failure() {
    let sighash = SigFromSliceError::SighashType(InvalidSighashTypeError(9));
    assert_eq!(
        sighash.source(),
        Some(ErrorSource::SighashType(InvalidSighashTypeError(9)))
    );
    assert_eq!(sighash.source().unwrap().message(), "invalid sighash type 9");
    let crypto = SigFromSliceError::Secp256k1(CryptoError::InvalidSignature);
    assert_eq!(
        crypto.source(),
        Some(ErrorSource::Secp256k1(CryptoError::InvalidSignature))
    );
    assert_eq!(crypto.source().unwrap().message(), "invalid signature");
    assert_eq!(SigFromSliceError::InvalidSignatureSize(7).source(), None);
}

#[test]
fn causes_convert_into_the_error_that_wraps_them() {
    assert_eq!(
        SigFromSliceError::from(CryptoError::InvalidSignature),
        SigFromSliceError::Secp256k1(CryptoError::InvalidSignature)
    );
    assert_eq!(
        SigFromSliceError::from(InvalidSighashTypeError(130)),
        SigFromSliceError::SighashType(InvalidSighashTypeError(130))
    );
}

#[test]
fn errors_clone_to_equal_errors() {
    let all = [
        SigFromSliceError::SighashType(InvalidSighashTypeError(4)),
        SigFromSliceError::Secp256k1(CryptoError::InvalidSignature),
        SigFromSliceError::InvalidSignatureSize(66),
    ];
    for e in &all {
        assert_eq!(&e.clone(), e);
    }
    assert_ne!(all[0], all[1]);
    assert_ne!(all[2], SigFromSliceError::InvalidSignatureSize(65));
}

#[test]
fn numbers_are_written_in_decimal() {
    let cases: [(u64, &str); 8] = [
        (0, "0"),
        (7, "7"),
        (9, "9"),
        (10, "10"),
        (65, "65"),
        (1234567890, "1234567890"),
        (100000, "100000"),
        (18446744073709551615, "18446744073709551615"),
    ];
    for (n, text) in cases {
        let mut out = String::from("n=");
        push_decimal(&mut out, n);
        assert_eq!(out, format!("n={}", text));
        assert_eq!(out, format!("n={}", n));
    }
}
