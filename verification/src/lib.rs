//! A non-custodial wallet engine for Scash, a chain with single-signature
//! segwit version-0 outputs.
//!
//! From a mnemonic phrase and a derivation path the engine derives a private
//! key ([`hd`]), encodes the receiving address of that key ([`address`]),
//! builds the transaction that spends a given set of unspent outputs
//! ([`tx_builder`]) and signs every input of it ([`sign`]).  The calls that a
//! host makes are in [`api`].
//!
//! Every function states what it returns as a function of its inputs.  The
//! cryptographic primitives and the wire formats come from the `bitcoin`,
//! `bip39`, `bech32` and `hex` crates; what they return is given a name in
//! the contracts, and the little that is assumed of them is said where they
//! are called.

pub mod address;
pub mod api;
pub mod error;
pub mod hd;
pub mod hexcode;
pub mod keys;
pub mod mnemonic;
pub mod network;
pub mod sign;
pub mod transaction;
pub mod tx_builder;
pub mod utxo;

pub use utxo::Utxo;
