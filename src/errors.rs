//! Errors of transaction building and signing.

use crate::crypto::CryptoError;
use vstd::prelude::*;

verus! {

/// Why a transaction could not be built, signed or finalized.
#[derive(Clone, Debug, PartialEq, Eq)]
pub enum TransactionError {
    /// A public key in uncompressed form where a witness program needs a
    /// compressed one.
    UncompressedPublicKey,
    /// The curve arithmetic failed.
    Secp256k1(CryptoError),
    /// The amounts do not match the inputs one for one.
    InputsOutputsLengthMismatch,
    /// The builder holds no deposit input yet.
    NoDepositTxStored,
    /// An input index beyond the inputs of the transaction.
    InputIndexOutOfBounds,
    /// The transaction to sweep has no output to spend.
    MissingChallengeOutput,
    /// An amount outside the range of satoshi values: a doubled stake that
    /// overflows, or a fee above the value swept.
    AmountOutOfRange,
    /// A transaction handed over for partial signing already carries witnesses.
    UnsignedTxHasWitness,
    /// No signed transaction can be extracted: the inputs listed are not
    /// satisfied by any of their partial signatures (the list is empty where
    /// the partially signed transaction does not have one entry per input).
    ExtractTransactionFailed(Vec<usize>),
}

} // verus!
