//! Why a byte string is not the encoding of a taproot signature.

use vstd::prelude::*;
use vstd::string::StringExecFns;
use crate::decimal::{decimal, push_decimal};
use crate::sighash::InvalidSighashTypeError;

verus! {

/// A failure reported by the elliptic-curve primitives.
#[derive(Debug, Clone, Copy, PartialEq, Eq, Structural, PartialOrd, Ord, Hash)]
#[non_exhaustive]
pub enum CryptoError {
    /// The bytes are not a schnorr signature.
    InvalidSignature,
}

impl CryptoError {
    /// The text of the error.
    pub open spec fn message_text(self) -> Seq<char> {
        match self {
            CryptoError::InvalidSignature => "invalid signature"@,
        }
    }

    /// Renders the error for a reader.
    pub fn message(&self) -> (out: String)
        ensures
            out@ == self.message_text(),
    {
        match self {
            CryptoError::InvalidSignature => String::from_str("invalid signature"),
        }
    }
}

/// An error constructing a taproot signature from a byte slice.
#[derive(Debug, PartialEq, Eq, Structural)]
#[non_exhaustive]
pub enum SigFromSliceError {
    /// The trailing byte is the code of no signature hash type.
    SighashType(InvalidSighashTypeError),
    /// The first 64 bytes are not a schnorr signature.
    Secp256k1(CryptoError),
    /// The slice is neither 64 nor 65 bytes long; holds its length.
    InvalidSignatureSize(usize),
}

/// The failure underneath a [`SigFromSliceError`].
#[derive(Debug, Clone, Copy, PartialEq, Eq, Structural)]
pub enum ErrorSource {
    /// The hash type's reader refused the trailing byte.
    SighashType(InvalidSighashTypeError),
    /// The elliptic-curve primitives refused the raw signature.
    Secp256k1(CryptoError),
}

impl ErrorSource {
    /// The text of the underlying failure.
    pub open spec fn message_text(self) -> Seq<char> {
        match self {
            ErrorSource::SighashType(e) => e.message_text(),
            ErrorSource::Secp256k1(e) => e.message_text(),
        }
    }

    /// Renders the underlying failure for a reader.
    pub fn message(&self) -> (out: String)
        ensures
            out@ == self.message_text(),
    {
        match self {
            ErrorSource::SighashType(e) => e.message(),
            ErrorSource::Secp256k1(e) => e.message(),
        }
    }
}

impl SigFromSliceError {
    /// The failure that this error wraps: none for a wrong length.
    pub open spec fn cause(self) -> Option<ErrorSource> {
        match self {
            SigFromSliceError::SighashType(e) => Some(ErrorSource::SighashType(e)),
            SigFromSliceError::Secp256k1(e) => Some(ErrorSource::Secp256k1(e)),
            SigFromSliceError::InvalidSignatureSize(_) => None,
        }
    }

    /// The text of the error: a short tag, then the text of the wrapped
    /// failure, or for a wrong length the length in decimal.
    pub open spec fn message_text(self) -> Seq<char> {
        match self {
            SigFromSliceError::SighashType(e) => "sighash: "@ + e.message_text(),
            SigFromSliceError::Secp256k1(e) => "secp256k1: "@ + e.message_text(),
            SigFromSliceError::InvalidSignatureSize(sz) => "invalid taproot signature size: "@
                + decimal(sz as nat),
        }
    }

    /// Returns the failure that this error wraps, if it wraps one.
    pub fn source(&self) -> (out: Option<ErrorSource>)
        ensures
            out == self.cause(),
    {
        match self {
            SigFromSliceError::SighashType(e) => Some(ErrorSource::SighashType(*e)),
            SigFromSliceError::Secp256k1(e) => Some(ErrorSource::Secp256k1(*e)),
            SigFromSliceError::InvalidSignatureSize(_) => None,
        }
    }

    /// Renders the error for a reader.
    pub fn message(&self) -> (out: String)
        ensures
            out@ == self.message_text(),
    {
        match self {
            SigFromSliceError::SighashType(e) => {
                let mut out = String::from_str("sighash: ");
                let inner = e.message();
                out.append(inner.as_str());
                out
            },
            SigFromSliceError::Secp256k1(e) => {
                let mut out = String::from_str("secp256k1: ");
                let inner = e.message();
                out.append(inner.as_str());
                out
            },
            SigFromSliceError::InvalidSignatureSize(sz) => {
                let mut out = String::from_str("invalid taproot signature size: ");
                push_decimal(&mut out, *sz as u64);
                out
            },
        }
    }
}

impl Clone for SigFromSliceError {
    fn clone(&self) -> (out: Self)
        ensures
            out == *self,
    {
        match self {
            SigFromSliceError::SighashType(e) => SigFromSliceError::SighashType(*e),
            SigFromSliceError::Secp256k1(e) => SigFromSliceError::Secp256k1(*e),
            SigFromSliceError::InvalidSignatureSize(sz) => SigFromSliceError::InvalidSignatureSize(
                *sz,
            ),
        }
    }
}

impl From<CryptoError> for SigFromSliceError {
    fn from(e: CryptoError) -> (out: Self) {
        SigFromSliceError::Secp256k1(e)
    }
}

impl vstd::std_specs::convert::FromSpecImpl<CryptoError> for SigFromSliceError {
    open spec fn obeys_from_spec() -> bool {
        true
    }

    open spec fn from_spec(e: CryptoError) -> Self {
        SigFromSliceError::Secp256k1(e)
    }
}

impl From<InvalidSighashTypeError> for SigFromSliceError {
    fn from(err: InvalidSighashTypeError) -> (out: Self) {
        SigFromSliceError::SighashType(err)
    }
}

impl vstd::std_specs::convert::FromSpecImpl<InvalidSighashTypeError> for SigFromSliceError {
    open spec fn obeys_from_spec() -> bool {
        true
    }

    open spec fn from_spec(err: InvalidSighashTypeError) -> Self {
        SigFromSliceError::SighashType(err)
    }
}

} // verus!
