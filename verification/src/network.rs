use vstd::prelude::*;

verus! {

/// Human-readable prefix of Scash segwit addresses.
pub const BECH32_HRP: &'static str = "scash";

/// Version bytes of a serialized extended public key.
pub const BIP32_PUB: u32 = 0x0488b21e;

/// Version bytes of a serialized extended private key.
pub const BIP32_PRIV: u32 = 0x0488ade4;

/// Version byte of pay-to-pubkey-hash addresses.
pub const PUBKEY_HASH: u8 = 0x3c;

/// Version byte of pay-to-script-hash addresses.
pub const SCRIPT_HASH: u8 = 0x7d;

/// Version byte of private keys in wallet import format.
pub const WIF: u8 = 0x80;

/// Encoding constants of one chain.
pub struct ScashNetwork {
    /// Human-readable prefix of segwit addresses.
    pub bech32_hrp: &'static str,
    /// Version bytes of a serialized extended public key.
    pub bip32_pub: u32,
    /// Version bytes of a serialized extended private key.
    pub bip32_priv: u32,
    /// Version byte of pay-to-pubkey-hash addresses.
    pub pubkey_hash: u8,
    /// Version byte of pay-to-script-hash addresses.
    pub script_hash: u8,
    /// Version byte of private keys in wallet import format.
    pub wif: u8,
}

impl ScashNetwork {
    /// The parameters of the Scash main chain, as a value of the model.
    pub open spec fn spec_scash() -> ScashNetwork {
        ScashNetwork {
            bech32_hrp: BECH32_HRP,
            bip32_pub: BIP32_PUB,
            bip32_priv: BIP32_PRIV,
            pubkey_hash: PUBKEY_HASH,
            script_hash: SCRIPT_HASH,
            wif: WIF,
        }
    }

    /// The parameters of the Scash main chain.
    pub fn scash() -> (n: ScashNetwork)
        ensures
            n == Self::spec_scash(),
    {
        ScashNetwork {
            bech32_hrp: BECH32_HRP,
            bip32_pub: BIP32_PUB,
            bip32_priv: BIP32_PRIV,
            pubkey_hash: PUBKEY_HASH,
            script_hash: SCRIPT_HASH,
            wif: WIF,
        }
    }
}

/// The chain family whose version bytes serialized extended keys carry.
#[derive(Clone, Copy, Debug, PartialEq, Eq, Structural)]
pub enum Network {
    /// Main-chain version bytes.
    Bitcoin,
    /// Test-chain version bytes.
    Testnet,
}

} // verus!
