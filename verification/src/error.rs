use vstd::prelude::*;

verus! {

/// Every way a wallet operation can fail.  Each failure is terminal for the
/// call that raised it and carries the figures needed to diagnose it.
#[derive(Clone, Copy, Debug, PartialEq, Eq, Structural)]
pub enum WalletError {
    /// The phrase is not a well-formed mnemonic.
    InvalidMnemonic,
    /// No fresh mnemonic could be produced.
    MnemonicGenerationFailed,
    /// The derivation path string is malformed.
    InvalidPath,
    /// The seed was rejected when deriving the master key.
    MasterKeyDerivationFailed,
    /// A step of the path walk produced no child key.
    DerivationFailed,
    /// The text is not a serialized extended private key.
    InvalidExtendedKey,
    /// The bytes are not a usable private scalar.
    InvalidPrivateKey,
    /// The text is not a segwit address.
    InvalidAddress,
    /// The address could not be encoded.
    AddressEncodingFailed,
    /// The address carries a witness version other than 0.
    UnsupportedWitnessVersion { version: u8 },
    /// The witness program is not 20 bytes long.
    InvalidWitnessProgramLength { length: usize },
    /// An amount computation left the 64-bit range.
    Overflow,
    /// The inputs do not cover the amounts to be paid.
    InsufficientFunds { available: u64, required: u128 },
    /// The transaction id of the input at `index` is not 64 hex digits.
    InvalidTxid { index: usize },
    /// A platform fee was asked for without a script to pay it to.
    MissingPlatformScript,
    /// The number of input amounts differs from the number of inputs.
    AmountCountMismatch { expected: usize, actual: usize },
    /// The signature hash was asked for an input that does not exist.
    InvalidInputIndex { index: usize },
    /// A hashing or signing primitive failed.
    SigningFailed,
}

/// The model of a result that carries text.
pub open spec fn text_result_view(r: Result<String, WalletError>) -> Result<
    Seq<char>,
    WalletError,
> {
    match r {
        Ok(text) => Ok(text@),
        Err(e) => Err(e),
    }
}

/// The model of a result that carries bytes.
pub open spec fn bytes_result_view(r: Result<Vec<u8>, WalletError>) -> Result<
    Seq<u8>,
    WalletError,
> {
    match r {
        Ok(bytes) => Ok(bytes@),
        Err(e) => Err(e),
    }
}

/// The model of an optional text.
pub open spec fn text_option_view(t: Option<String>) -> Option<Seq<char>> {
    match t {
        Some(text) => Some(text@),
        None => None,
    }
}

} // verus!
