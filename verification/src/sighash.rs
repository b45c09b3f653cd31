//! The taproot signature hash type and its one-byte consensus code.

use vstd::prelude::*;
use vstd::string::StringExecFns;
use crate::decimal::{decimal, push_decimal};

verus! {

/// Which parts of the spending transaction a taproot signature commits to.
///
/// The variants are declared in ascending order of their consensus codes, so
/// the derived ordering is the ordering of the codes.
#[derive(Debug, Clone, Copy, PartialEq, Eq, Structural, PartialOrd, Ord, Hash)]
pub enum TapSighashType {
    /// Signs all inputs and outputs; encoded by leaving the code byte out.
    Default,
    /// Signs all inputs and outputs, with the code byte written out.
    All,
    /// Signs all inputs and no output.
    NoOutputs,
    /// Signs all inputs and the output at the same index as the input.
    Single,
    /// Signs this input alone and all outputs.
    AllPlusAnyoneCanPay,
    /// Signs this input alone and no output.
    NonePlusAnyoneCanPay,
    /// Signs this input alone and the output at the same index.
    SinglePlusAnyoneCanPay,
}

/// A byte that is the consensus code of no taproot signature hash type.
#[derive(Debug, Clone, Copy, PartialEq, Eq, Structural, PartialOrd, Ord, Hash)]
pub struct InvalidSighashTypeError(pub u32);

impl InvalidSighashTypeError {
    /// The text of the error: a fixed phrase and the refused code in decimal.
    pub open spec fn message_text(self) -> Seq<char> {
        "invalid sighash type "@ + decimal(self.0 as nat)
    }

    /// Renders the error for a reader.
    pub fn message(&self) -> (out: String)
        ensures
            out@ == self.message_text(),
    {
        let mut out = String::from_str("invalid sighash type ");
        push_decimal(&mut out, self.0 as u64);
        out
    }
}

impl TapSighashType {
    /// The consensus code of this hash type.
    pub open spec fn code(self) -> u8 {
        match self {
            TapSighashType::Default => 0x00,
            TapSighashType::All => 0x01,
            TapSighashType::NoOutputs => 0x02,
            TapSighashType::Single => 0x03,
            TapSighashType::AllPlusAnyoneCanPay => 0x81,
            TapSighashType::NonePlusAnyoneCanPay => 0x82,
            TapSighashType::SinglePlusAnyoneCanPay => 0x83,
        }
    }

    /// The hash type that a code stands for, if it stands for one.
    pub open spec fn of_code(code: u8) -> Option<TapSighashType> {
        if code == 0x00 {
            Some(TapSighashType::Default)
        } else if code == 0x01 {
            Some(TapSighashType::All)
        } else if code == 0x02 {
            Some(TapSighashType::NoOutputs)
        } else if code == 0x03 {
            Some(TapSighashType::Single)
        } else if code == 0x81 {
            Some(TapSighashType::AllPlusAnyoneCanPay)
        } else if code == 0x82 {
            Some(TapSighashType::NonePlusAnyoneCanPay)
        } else if code == 0x83 {
            Some(TapSighashType::SinglePlusAnyoneCanPay)
        } else {
            None
        }
    }

    /// Whether this is the hash type that the encoding leaves out.
    pub fn is_default(self) -> (r: bool)
        ensures
            r == (self == TapSighashType::Default),
            r == (self.code() == 0),
    {
        match self {
            TapSighashType::Default => true,
            _ => false,
        }
    }

    /// Returns the consensus code of this hash type.
    pub fn to_consensus_u8(self) -> (code: u8)
        ensures
            code == self.code(),
    {
        match self {
            TapSighashType::Default => 0x00,
            TapSighashType::All => 0x01,
            TapSighashType::NoOutputs => 0x02,
            TapSighashType::Single => 0x03,
            TapSighashType::AllPlusAnyoneCanPay => 0x81,
            TapSighashType::NonePlusAnyoneCanPay => 0x82,
            TapSighashType::SinglePlusAnyoneCanPay => 0x83,
        }
    }

    /// Reads a hash type from its consensus code. A byte that is no code is
    /// handed back in the error.
    pub fn from_consensus_u8(hash_ty: u8) -> (r: Result<TapSighashType, InvalidSighashTypeError>)
        ensures
            match TapSighashType::of_code(hash_ty) {
                Some(t) => r == Ok::<TapSighashType, InvalidSighashTypeError>(t),
                None => r == Err::<TapSighashType, InvalidSighashTypeError>(
                    InvalidSighashTypeError(hash_ty as u32),
                ),
            },
    {
        match hash_ty {
            0x00 => Ok(TapSighashType::Default),
            0x01 => Ok(TapSighashType::All),
            0x02 => Ok(TapSighashType::NoOutputs),
            0x03 => Ok(TapSighashType::Single),
            0x81 => Ok(TapSighashType::AllPlusAnyoneCanPay),
            0x82 => Ok(TapSighashType::NonePlusAnyoneCanPay),
            0x83 => Ok(TapSighashType::SinglePlusAnyoneCanPay),
            x => Err(InvalidSighashTypeError(x as u32)),
        }
    }

    /// Every hash type is read back from its own code.
    pub proof fn lemma_of_code_inverts_code(t: TapSighashType)
        ensures
            TapSighashType::of_code(t.code()) == Some(t),
    {
    }

    /// A code that stands for a hash type is the code of that hash type, so
    /// no two codes stand for the same one.
    pub proof fn lemma_code_inverts_of_code(code: u8)
        ensures
            TapSighashType::of_code(code) matches Some(t) ==> t.code() == code,
    {
    }

    /// Distinct hash types have distinct codes.
    pub proof fn lemma_code_injective(a: TapSighashType, b: TapSighashType)
        ensures
            a.code() == b.code() <==> a == b,
    {
    }
}

} // verus!
