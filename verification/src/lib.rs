//! Taproot (BIP340/341) schnorr signatures paired with their signature hash
//! type, and the consensus encoding of the pair: 64 bytes when the hash type
//! is the default one, 65 bytes otherwise.

pub mod decimal;
pub mod error;
pub mod laws;
pub mod lexical;
pub mod schnorr;
pub mod serialized_signature;
pub mod sighash;
pub mod signature;
