use vstd::prelude::*;
use bitcoin::bip32::{DerivationPath, Xpriv};
use bitcoin::secp256k1::Secp256k1;
use bitcoin::NetworkKind;
use std::str::FromStr;
use crate::address::bytes_equal;
use crate::error::{text_result_view, WalletError};
use crate::keys::{
    hmac_sha512, public_key, scalar_add, spec_hmac_sha512, spec_public_key, spec_scalar_add,
};
use crate::mnemonic::{
    parse_mnemonic_internal, spec_mnemonic_seed, spec_parse_mnemonic, PASSPHRASE,
};
use crate::network::{Network, BECH32_HRP, BIP32_PRIV};

verus! {

/// A child number at or above this value asks for hardened derivation.
pub const HARDENED_BIT: u32 = 0x8000_0000;

/// Length of a serialized extended key.
pub const XPRV_LEN: usize = 78;

/// One step of a derivation path.
#[derive(Clone, Copy, Debug, PartialEq, Eq, Structural)]
pub struct ChildNumber {
    /// Index of the child, below 2^31.
    pub index: u32,
    /// Whether the child is derived from the private key alone.
    pub hardened: bool,
}

impl ChildNumber {
    /// A child number is well formed when its index is below 2^31.
    pub open spec fn wf(self) -> bool {
        self.index < HARDENED_BIT
    }

    /// The 32-bit number that stands for this step on the wire.
    pub open spec fn spec_to_raw(self) -> u32
        recommends
            self.wf(),
    {
        if self.hardened {
            (self.index + HARDENED_BIT) as u32
        } else {
            self.index
        }
    }

    /// The step that a 32-bit wire number stands for.
    pub open spec fn spec_from_raw(raw: u32) -> ChildNumber {
        if raw >= HARDENED_BIT {
            ChildNumber { index: (raw - HARDENED_BIT) as u32, hardened: true }
        } else {
            ChildNumber { index: raw, hardened: false }
        }
    }

    /// The 32-bit number that stands for this step on the wire.
    pub fn to_raw(self) -> (raw: u32)
        requires
            self.wf(),
        ensures
            raw == self.spec_to_raw(),
    {
        if self.hardened {
            self.index + HARDENED_BIT
        } else {
            self.index
        }
    }

    /// The step that a 32-bit wire number stands for.
    pub fn from_raw(raw: u32) -> (step: ChildNumber)
        ensures
            step == Self::spec_from_raw(raw),
            step.wf(),
    {
        if raw >= HARDENED_BIT {
            ChildNumber { index: raw - HARDENED_BIT, hardened: true }
        } else {
            ChildNumber { index: raw, hardened: false }
        }
    }

    /// Every wire number stands for a well-formed step, and that step is
    /// written as the same wire number.
    pub proof fn lemma_from_raw_to_raw(raw: u32)
        ensures
            Self::spec_from_raw(raw).wf(),
            Self::spec_from_raw(raw).spec_to_raw() == raw,
    {
    }

    /// A well-formed step is read back from its wire number.
    pub proof fn lemma_to_raw_from_raw(self)
        requires
            self.wf(),
        ensures
            Self::spec_from_raw(self.spec_to_raw()) == self,
    {
    }
}

/// Whether every step of a path is well formed.
pub open spec fn steps_wf(steps: Seq<ChildNumber>) -> bool {
    forall|i: int| 0 <= i < steps.len() ==> (#[trigger] steps[i]).wf()
}

/// The steps that a sequence of wire numbers stands for.
pub open spec fn spec_child_numbers(raw: Seq<u32>) -> Seq<ChildNumber> {
    raw.map_values(|r: u32| ChildNumber::spec_from_raw(r))
}

/// An extended private key in its 78-byte serialization: version, depth,
/// parent fingerprint, child number, chain code, a zero byte and the
/// private scalar.  It is never printed by this library.
#[derive(Clone, Copy)]
pub struct ExtendedPrivateKey {
    pub bytes: [u8; 78],
}

impl View for ExtendedPrivateKey {
    type V = Seq<u8>;

    open spec fn view(&self) -> Seq<u8> {
        self.bytes@
    }
}

/// Depth of a serialized key: how many derivations lie between it and the master.
pub open spec fn spec_depth(key: Seq<u8>) -> u8
    recommends
        key.len() == XPRV_LEN,
{
    key[4]
}

/// Fingerprint of the parent of a serialized key.
pub open spec fn spec_parent_fingerprint(key: Seq<u8>) -> Seq<u8>
    recommends
        key.len() == XPRV_LEN,
{
    key.subrange(5, 9)
}

/// The number that four bytes spell, most significant byte first.
pub open spec fn spec_be_u32(b0: u8, b1: u8, b2: u8, b3: u8) -> u32 {
    (b0 as int * 0x100_0000 + b1 as int * 0x1_0000 + b2 as int * 0x100 + b3 as int) as u32
}

/// Version bytes of a serialized key, which tell the chain family.
pub open spec fn spec_version(key: Seq<u8>) -> u32
    recommends
        key.len() == XPRV_LEN,
{
    spec_be_u32(key[0], key[1], key[2], key[3])
}

/// Wire number of the step that led to a serialized key.
pub open spec fn spec_child_raw(key: Seq<u8>) -> u32
    recommends
        key.len() == XPRV_LEN,
{
    spec_be_u32(key[9], key[10], key[11], key[12])
}

/// Chain code of a serialized key.
pub open spec fn spec_chain_code(key: Seq<u8>) -> Seq<u8>
    recommends
        key.len() == XPRV_LEN,
{
    key.subrange(13, 45)
}

/// Private scalar of a serialized key.
pub open spec fn spec_private_key(key: Seq<u8>) -> Seq<u8>
    recommends
        key.len() == XPRV_LEN,
{
    key.subrange(46, 78)
}

/// The serialized master key of a seed on a network; `None` where the seed
/// yields no private scalar.
pub uninterp spec fn spec_master_key(network: Network, seed: Seq<u8>) -> Option<Seq<u8>>;

/// The wire numbers that a derivation path in text form lists; `None`
/// where the text is malformed.
pub uninterp spec fn spec_parse_path(path: Seq<char>) -> Option<Seq<u32>>;

/// The serialized child that one derivation step yields from a serialized
/// parent; `None` where the parent does not deserialize or its depth is
/// already 255.
pub uninterp spec fn spec_child_key(parent: Seq<u8>, child: u32) -> Option<Seq<u8>>;

/// The Base58Check text of a serialized key; `None` where the bytes do not
/// deserialize.
pub uninterp spec fn spec_xprv_to_base58(key: Seq<u8>) -> Option<Seq<char>>;

/// The serialized key that a Base58Check text stands for; `None` where the
/// text is no extended private key.
pub uninterp spec fn spec_xprv_from_base58(text: Seq<char>) -> Option<Seq<u8>>;

/// The chain family that the address prefix selects.
pub open spec fn spec_get_network() -> Network {
    if BECH32_HRP@ == "scash"@ {
        Network::Bitcoin
    } else {
        Network::Testnet
    }
}

/// Whether a serialized key is a master key of this chain: it carries the
/// chain's private version bytes and depth 0.
pub open spec fn spec_is_master(key: Seq<u8>) -> bool {
    spec_version(key) == BIP32_PRIV && spec_depth(key) == 0
}

/// Whether the metadata of `child` say that it is the child of `parent` at
/// `step`: same version bytes, one level deeper, and the step's number.
pub open spec fn spec_is_child_of(child: Seq<u8>, parent: Seq<u8>, step: ChildNumber) -> bool {
    &&& spec_version(child) == spec_version(parent)
    &&& spec_depth(child) == spec_depth(parent) + 1
    &&& spec_child_raw(child) == step.spec_to_raw()
}

/// The master key of a seed; `None` where the seed yields none, or what it
/// yields is no master key of this chain.
pub open spec fn spec_master_from_seed(seed: Seq<u8>) -> Option<Seq<u8>> {
    match spec_master_key(spec_get_network(), seed) {
        Some(master) => if spec_is_master(master) {
            Some(master)
        } else {
            None
        },
        None => None,
    }
}

/// The four bytes of a number, most significant byte first.
pub open spec fn spec_be_bytes(n: u32) -> Seq<u8> {
    seq![
        (n / 0x100_0000) as u8,
        (n / 0x1_0000 % 0x100) as u8,
        (n / 0x100 % 0x100) as u8,
        (n % 0x100) as u8,
    ]
}

/// What a derivation step authenticates: for a hardened step a zero byte
/// and the parent's private scalar, for a normal step the parent's public
/// key; then the four bytes of the step's wire number.
pub open spec fn spec_step_data(secret: Seq<u8>, pubkey: Seq<u8>, child: u32) -> Seq<u8> {
    if child >= HARDENED_BIT {
        seq![0u8] + secret + spec_be_bytes(child)
    } else {
        pubkey + spec_be_bytes(child)
    }
}

/// The digest of a derivation step: the HMAC-SHA512 of the step's data
/// under the parent's chain code.  Its left half is added to the parent's
/// private scalar, its right half is the child's chain code.
pub open spec fn spec_step_digest(parent: Seq<u8>, pubkey: Seq<u8>, child: u32) -> Seq<u8> {
    spec_hmac_sha512(
        spec_chain_code(parent),
        spec_step_data(spec_private_key(parent), pubkey, child),
    )
}

/// Whether a derivation step yields a child scalar: the parent's scalar is
/// one, the left half of the step's digest is one, and their sum is one.
pub open spec fn spec_step_is_sound(parent: Seq<u8>, child: u32) -> bool {
    match spec_public_key(spec_private_key(parent)) {
        None => false,
        Some(pubkey) => {
            let left = spec_step_digest(parent, pubkey, child).subrange(0, 32);
            spec_public_key(left) is Some && spec_scalar_add(left, spec_private_key(parent))
                is Some
        },
    }
}

/// Whether `child` holds what the step's digest asks for: the sum of the
/// digest's left half and the parent's scalar as its private scalar, and
/// the digest's right half as its chain code.
pub open spec fn spec_holds_step_digest(child: Seq<u8>, parent: Seq<u8>, raw: u32) -> bool {
    match spec_public_key(spec_private_key(parent)) {
        None => false,
        Some(pubkey) => {
            let digest = spec_step_digest(parent, pubkey, raw);
            &&& spec_scalar_add(digest.subrange(0, 32), spec_private_key(parent)) == Some(
                spec_private_key(child),
            )
            &&& spec_chain_code(child) == digest.subrange(32, 64)
        },
    }
}

/// The child of `parent` at `step`; `None` where the step is not well
/// formed, where it yields no child scalar, where the derivation yields no
/// key, or where the key it yields does not carry the metadata, the scalar
/// and the chain code of that child.
pub open spec fn spec_derive_child(parent: Seq<u8>, step: ChildNumber) -> Option<Seq<u8>> {
    if !step.wf() || !spec_step_is_sound(parent, step.spec_to_raw()) {
        None
    } else {
        match spec_child_key(parent, step.spec_to_raw()) {
            Some(child) => if spec_is_child_of(child, parent, step) && spec_holds_step_digest(
                child,
                parent,
                step.spec_to_raw(),
            ) {
                Some(child)
            } else {
                None
            },
            None => None,
        }
    }
}

/// The key that walking `steps` from `key` arrives at, one derivation per
/// step and in their order; `None` as soon as one step yields no child.
pub open spec fn spec_derive_path(key: Seq<u8>, steps: Seq<ChildNumber>) -> Option<Seq<u8>>
    decreases steps.len(),
{
    if steps.len() == 0 {
        Some(key)
    } else {
        match spec_derive_path(key, steps.drop_last()) {
            Some(parent) => spec_derive_child(parent, steps.last()),
            None => None,
        }
    }
}

/// What deriving a private key from a phrase and a path yields.
///
/// The stages come in this order: the phrase is validated and stretched to
/// a seed, the master key is derived, the path is parsed, the path is walked.
pub open spec fn spec_derive_private_key(phrase: Seq<char>, path: Seq<char>) -> Result<
    Seq<u8>,
    WalletError,
> {
    match spec_parse_mnemonic(phrase) {
        Err(e) => Err(e),
        Ok(entropy) => match spec_mnemonic_seed(entropy, PASSPHRASE@) {
            None => Err(WalletError::InvalidMnemonic),
            Some(seed) => match spec_master_from_seed(seed) {
                None => Err(WalletError::MasterKeyDerivationFailed),
                Some(master) => match spec_parse_path(path) {
                    None => Err(WalletError::InvalidPath),
                    Some(raw) => match spec_derive_path(master, spec_child_numbers(raw)) {
                        None => Err(WalletError::DerivationFailed),
                        Some(key) => Ok(key),
                    },
                },
            },
        },
    }
}

/// What deriving a key and writing it as Base58Check text yields.
pub open spec fn spec_derive_xprv(phrase: Seq<char>, path: Seq<char>) -> Result<
    Seq<char>,
    WalletError,
> {
    match spec_derive_private_key(phrase, path) {
        Err(e) => Err(e),
        Ok(key) => match spec_xprv_to_base58(key) {
            None => Err(WalletError::InvalidExtendedKey),
            Some(text) => Ok(text),
        },
    }
}

/// The model of a key result.
pub open spec fn key_result_view(r: Result<ExtendedPrivateKey, WalletError>) -> Result<
    Seq<u8>,
    WalletError,
> {
    match r {
        Ok(key) => Ok(key@),
        Err(e) => Err(e),
    }
}

/// A walk that has failed on a prefix of the path fails on the whole path.
pub proof fn lemma_derive_path_fails_on(key: Seq<u8>, steps: Seq<ChildNumber>, n: int)
    requires
        0 <= n <= steps.len(),
        spec_derive_path(key, steps.take(n)) is None,
    ensures
        spec_derive_path(key, steps) is None,
    decreases steps.len(),
{
    if n == steps.len() {
        assert(steps.take(n) =~= steps);
    } else {
        assert(steps.drop_last().take(n) =~= steps.take(n));
        lemma_derive_path_fails_on(key, steps.drop_last(), n);
    }
}

/// Walking a path and then one more step is walking the longer path.
pub proof fn lemma_derive_path_step(key: Seq<u8>, steps: Seq<ChildNumber>, step: ChildNumber)
    ensures
        spec_derive_path(key, steps.push(step)) == match spec_derive_path(key, steps) {
            Some(parent) => spec_derive_child(parent, step),
            None => None,
        },
{
    assert(steps.push(step).drop_last() =~= steps);
}

/// A walk keeps the version bytes and goes one level deeper with every
/// step, so no walk from a key of depth `d` is longer than `255 - d`.
pub proof fn lemma_derive_path_metadata(key: Seq<u8>, steps: Seq<ChildNumber>)
    requires
        spec_derive_path(key, steps) is Some,
    ensures
        spec_version(spec_derive_path(key, steps).unwrap()) == spec_version(key),
        spec_depth(spec_derive_path(key, steps).unwrap()) == spec_depth(key) + steps.len(),
        steps.len() > 0 ==> spec_child_raw(spec_derive_path(key, steps).unwrap())
            == steps.last().spec_to_raw(),
        spec_depth(key) + steps.len() <= 255,
    decreases steps.len(),
{
    if steps.len() > 0 {
        lemma_derive_path_metadata(key, steps.drop_last());
    }
}

/// A derived key carries the chain's private version bytes, lies as deep as
/// its path is long, and records the last step of the path; a path of more
/// than 255 steps derives no key.
pub proof fn lemma_derived_key_metadata(phrase: Seq<char>, path: Seq<char>)
    requires
        spec_derive_private_key(phrase, path) is Ok,
    ensures
        spec_parse_path(path) is Some,
        spec_version(spec_derive_private_key(phrase, path).unwrap()) == BIP32_PRIV,
        spec_depth(spec_derive_private_key(phrase, path).unwrap()) == spec_parse_path(
            path,
        ).unwrap().len(),
        spec_parse_path(path).unwrap().len() > 0 ==> spec_child_raw(
            spec_derive_private_key(phrase, path).unwrap(),
        ) == spec_parse_path(path).unwrap().last(),
        spec_parse_path(path).unwrap().len() <= 255,
{
    let entropy = spec_parse_mnemonic(phrase).unwrap();
    let seed = spec_mnemonic_seed(entropy, PASSPHRASE@).unwrap();
    let master = spec_master_from_seed(seed).unwrap();
    let raw = spec_parse_path(path).unwrap();
    lemma_derive_path_metadata(master, spec_child_numbers(raw));
    if raw.len() > 0 {
        ChildNumber::lemma_from_raw_to_raw(raw.last());
    }
}

/// Derives the master key with `bitcoin::bip32::Xpriv::new_master` and
/// serializes it with `Xpriv::encode`.
/// Assumed without proof: the outcome is [`spec_master_key`] of network and
/// seed.
#[verifier::external_body]
fn master_key(network: Network, seed: &[u8]) -> (r: Option<[u8; 78]>)
    ensures
        match r {
            Some(key) => spec_master_key(network, seed@) == Some(key@),
            None => spec_master_key(network, seed@) is None,
        },
{
    let kind = match network {
        Network::Bitcoin => NetworkKind::Main,
        Network::Testnet => NetworkKind::Test,
    };
    Xpriv::new_master(kind, seed).ok().map(|key| key.encode())
}

/// Parses a path with `bitcoin::bip32::DerivationPath::from_str` and lists
/// its steps as wire numbers with `DerivationPath::to_u32_vec`.
/// Assumed without proof: the outcome is [`spec_parse_path`] of the text.
#[verifier::external_body]
fn parse_path_raw(path: &str) -> (r: Option<Vec<u32>>)
    ensures
        match r {
            Some(raw) => spec_parse_path(path@) == Some(raw@),
            None => spec_parse_path(path@) is None,
        },
{
    DerivationPath::from_str(path).ok().map(|p| p.to_u32_vec())
}

/// Derives one child: deserializes the parent with `Xpriv::decode`, walks
/// the one-step path with `Xpriv::derive_priv` and serializes the child
/// with `Xpriv::encode`.
/// `derive_priv` stops the program where the left half of the step's
/// digest is no private scalar or its sum with the parent's scalar is
/// none; the precondition leaves those steps out.
/// Assumed without proof: on the steps left, the outcome is
/// [`spec_child_key`] of parent and wire number.
#[verifier::external_body]
fn child_key(parent: &[u8; 78], child: u32) -> (r: Option<[u8; 78]>)
    requires
        spec_step_is_sound(parent@, child),
    ensures
        match r {
            Some(key) => spec_child_key(parent@, child) == Some(key@),
            None => spec_child_key(parent@, child) is None,
        },
{
    let path = [bitcoin::bip32::ChildNumber::from(child)];
    Xpriv::decode(parent).ok()?.derive_priv(&Secp256k1::new(), &path).ok().map(|key| key.encode())
}

/// Writes a key as text: deserializes with `Xpriv::decode` and formats with
/// the `Display` of `Xpriv`, which is Base58Check.
/// Assumed without proof: the outcome is [`spec_xprv_to_base58`] of the bytes.
#[verifier::external_body]
fn xprv_to_base58(key: &[u8; 78]) -> (r: Option<String>)
    ensures
        match r {
            Some(text) => spec_xprv_to_base58(key@) == Some(text@),
            None => spec_xprv_to_base58(key@) is None,
        },
{
    Xpriv::decode(key).ok().map(|key| key.to_string())
}

/// Reads a key from text with `Xpriv::from_str` and serializes it with
/// `Xpriv::encode`.
/// Assumed without proof: the outcome is [`spec_xprv_from_base58`] of the
/// text.
#[verifier::external_body]
fn xprv_from_base58(text: &str) -> (r: Option<[u8; 78]>)
    ensures
        match r {
            Some(key) => spec_xprv_from_base58(text@) == Some(key@),
            None => spec_xprv_from_base58(text@) is None,
        },
{
    Xpriv::from_str(text).ok().map(|key| key.encode())
}

/// Reads four bytes as a number, most significant byte first.
pub fn be_u32(b0: u8, b1: u8, b2: u8, b3: u8) -> (n: u32)
    ensures
        n == spec_be_u32(b0, b1, b2, b3),
{
    (b0 as u32) * 0x100_0000 + (b1 as u32) * 0x1_0000 + (b2 as u32) * 0x100 + (b3 as u32)
}

/// Writes a number as four bytes, most significant byte first.
pub fn be_bytes(n: u32) -> (bytes: [u8; 4])
    ensures
        bytes@ == spec_be_bytes(n),
        spec_be_u32(bytes@[0], bytes@[1], bytes@[2], bytes@[3]) == n,
{
    let bytes = [
        (n / 0x100_0000) as u8,
        (n / 0x1_0000 % 0x100) as u8,
        (n / 0x100 % 0x100) as u8,
        (n % 0x100) as u8,
    ];
    assert(bytes@ =~= spec_be_bytes(n));
    bytes
}

/// Appends `bytes` to `buffer`.
fn append(buffer: &mut Vec<u8>, bytes: &[u8])
    ensures
        final(buffer)@ == old(buffer)@ + bytes@,
{
    let ghost before = buffer@;
    let mut i: usize = 0;
    while i < bytes.len()
        invariant
            i <= bytes.len(),
            buffer@ == before + bytes@.take(i as int),
        decreases bytes.len() - i,
    {
        buffer.push(bytes[i]);
        assert(bytes@.take(i + 1) =~= bytes@.take(i as int).push(bytes@[i as int]));
        i += 1;
    }
    assert(bytes@.take(i as int) =~= bytes@);
}

/// Lays out what a derivation step authenticates.
pub fn step_data(secret: &[u8; 32], pubkey: &[u8; 33], child: u32) -> (data: Vec<u8>)
    ensures
        data@ == spec_step_data(secret@, pubkey@, child),
{
    let mut data: Vec<u8> = Vec::new();
    if child >= HARDENED_BIT {
        data.push(0u8);
        append(&mut data, secret.as_slice());
    } else {
        append(&mut data, pubkey.as_slice());
    }
    let number = be_bytes(child);
    append(&mut data, number.as_slice());
    assert(data@ =~= spec_step_data(secret@, pubkey@, child));
    data
}

/// Copies the 32 bytes that start at `start`.
fn copy32(bytes: &[u8], start: usize) -> (out: [u8; 32])
    requires
        start + 32 <= bytes@.len(),
    ensures
        out@ == bytes@.subrange(start as int, start + 32),
{
    let len = bytes.len();
    let mut out = [0u8; 32];
    let mut i: usize = 0;
    while i < 32
        invariant
            i <= 32,
            len == bytes@.len(),
            start + 32 <= len,
            forall|j: int| 0 <= j < i ==> out@[j] == bytes@[start + j],
        decreases 32 - i,
    {
        out[i] = bytes[start + i];
        i += 1;
    }
    assert(out@ =~= bytes@.subrange(start as int, start + 32));
    out
}

/// The chain family whose version bytes serialized keys carry: the main
/// one for the `scash` address prefix.
pub fn get_network() -> (n: Network)
    ensures
        n == spec_get_network(),
        n == Network::Bitcoin,
{
    let hrp = BECH32_HRP.to_owned();
    let main = "scash".to_owned();
    if hrp == main {
        Network::Bitcoin
    } else {
        Network::Testnet
    }
}

impl ExtendedPrivateKey {
    /// The version bytes, as a number.
    pub fn version(&self) -> (v: u32)
        ensures
            v == spec_version(self@),
    {
        be_u32(self.bytes[0], self.bytes[1], self.bytes[2], self.bytes[3])
    }

    /// How many derivations lie between this key and the master.
    pub fn depth(&self) -> (d: u8)
        ensures
            d == spec_depth(self@),
    {
        self.bytes[4]
    }

    /// The first four bytes of the parent key's identifier; zero for a
    /// master key.
    pub fn parent_fingerprint(&self) -> (fingerprint: [u8; 4])
        ensures
            fingerprint@ == spec_parent_fingerprint(self@),
    {
        let fingerprint = [self.bytes[5], self.bytes[6], self.bytes[7], self.bytes[8]];
        assert(fingerprint@ =~= spec_parent_fingerprint(self@));
        fingerprint
    }

    /// The step that led from the parent to this key; step 0 for a master key.
    pub fn child_number(&self) -> (step: ChildNumber)
        ensures
            step == ChildNumber::spec_from_raw(spec_child_raw(self@)),
            step.wf(),
    {
        ChildNumber::from_raw(be_u32(self.bytes[9], self.bytes[10], self.bytes[11], self.bytes[12]))
    }

    /// The chain code.
    pub fn chain_code(&self) -> (code: [u8; 32])
        ensures
            code@ == spec_chain_code(self@),
    {
        copy32(self.bytes.as_slice(), 13)
    }

    /// The private scalar.
    pub fn private_key(&self) -> (secret: [u8; 32])
        ensures
            secret@ == spec_private_key(self@),
    {
        copy32(self.bytes.as_slice(), 46)
    }

    /// Reads a key from its Base58Check text.
    pub fn from_base58(text: &str) -> (r: Result<ExtendedPrivateKey, WalletError>)
        ensures
            key_result_view(r) == match spec_xprv_from_base58(text@) {
                Some(key) => Ok::<Seq<u8>, WalletError>(key),
                None => Err(WalletError::InvalidExtendedKey),
            },
    {
        match xprv_from_base58(text) {
            Some(bytes) => Ok(ExtendedPrivateKey { bytes }),
            None => Err(WalletError::InvalidExtendedKey),
        }
    }

    /// Writes this key as Base58Check text.
    pub fn to_base58(&self) -> (r: Result<String, WalletError>)
        ensures
            text_result_view(r) == match spec_xprv_to_base58(self@) {
                Some(text) => Ok::<Seq<char>, WalletError>(text),
                None => Err(WalletError::InvalidExtendedKey),
            },
    {
        match xprv_to_base58(&self.bytes) {
            Some(text) => Ok(text),
            None => Err(WalletError::InvalidExtendedKey),
        }
    }
}

/// Derives the master key of a seed and checks that it is one of this chain.
pub fn master_from_seed(seed: &[u8]) -> (r: Option<ExtendedPrivateKey>)
    ensures
        match r {
            Some(master) => spec_master_from_seed(seed@) == Some(master@),
            None => spec_master_from_seed(seed@) is None,
        },
{
    match master_key(get_network(), seed) {
        Some(bytes) => {
            let master = ExtendedPrivateKey { bytes };
            if master.version() == BIP32_PRIV && master.depth() == 0 {
                Some(master)
            } else {
                None
            }
        },
        None => None,
    }
}

/// Derives the child of `parent` at `step`.
///
/// The step's digest is computed first: where its left half is no private
/// scalar, or the sum of that half and the parent's scalar is none, there
/// is no child and nothing is derived.  What is derived is accepted only
/// if it carries the metadata of that child and the scalar and chain code
/// that the digest asks for.
pub fn derive_child(parent: &ExtendedPrivateKey, step: ChildNumber) -> (r: Option<
    ExtendedPrivateKey,
>)
    ensures
        match r {
            Some(child) => spec_derive_child(parent@, step) == Some(child@),
            None => spec_derive_child(parent@, step) is None,
        },
{
    if step.index >= HARDENED_BIT {
        return None;
    }
    let raw = step.to_raw();
    let secret = parent.private_key();
    let pubkey = match public_key(&secret) {
        Some(pubkey) => pubkey,
        None => {
            return None;
        },
    };
    let data = step_data(&secret, &pubkey, raw);
    let digest = hmac_sha512(parent.chain_code().as_slice(), data.as_slice());
    let left = copy32(digest.as_slice(), 0);
    let right = copy32(digest.as_slice(), 32);
    if public_key(&left).is_none() {
        return None;
    }
    let sum = match scalar_add(&left, &secret) {
        Some(sum) => sum,
        None => {
            return None;
        },
    };
    match child_key(&parent.bytes, raw) {
        Some(bytes) => {
            let child = ExtendedPrivateKey { bytes };
            proof {
                ChildNumber::lemma_from_raw_to_raw(spec_child_raw(child@));
            }
            let same_chain = child.version() == parent.version();
            let deeper = parent.depth() < 255 && child.depth() == parent.depth() + 1;
            let at_step = child.child_number().to_raw() == raw;
            let scalar = bytes_equal(child.private_key().as_slice(), sum.as_slice());
            let chain = bytes_equal(child.chain_code().as_slice(), right.as_slice());
            if same_chain && deeper && at_step && scalar && chain {
                Some(child)
            } else {
                None
            }
        },
        None => None,
    }
}

/// Parses a derivation path such as `m/84'/0'/0'/0/0` into its steps.
pub fn parse_path(path: &str) -> (r: Result<Vec<ChildNumber>, WalletError>)
    ensures
        match r {
            Ok(steps) => spec_parse_path(path@) is Some && steps@ == spec_child_numbers(
                spec_parse_path(path@).unwrap(),
            ) && steps_wf(steps@),
            Err(e) => spec_parse_path(path@) is None && e == WalletError::InvalidPath,
        },
{
    let raw = match parse_path_raw(path) {
        Some(raw) => raw,
        None => {
            return Err(WalletError::InvalidPath);
        },
    };
    let mut steps: Vec<ChildNumber> = Vec::new();
    let mut i: usize = 0;
    while i < raw.len()
        invariant
            i <= raw.len(),
            steps@ == spec_child_numbers(raw@.take(i as int)),
            steps_wf(steps@),
        decreases raw.len() - i,
    {
        let step = ChildNumber::from_raw(raw[i]);
        proof {
            assert(spec_child_numbers(raw@.take(i + 1)) =~= spec_child_numbers(
                raw@.take(i as int),
            ).push(step));
        }
        steps.push(step);
        i += 1;
    }
    proof {
        assert(raw@.take(i as int) =~= raw@);
    }
    Ok(steps)
}

/// Walks `steps` from `start`, one derivation per step.
pub fn derive_path(start: ExtendedPrivateKey, steps: &Vec<ChildNumber>) -> (r: Result<
    ExtendedPrivateKey,
    WalletError,
>)
    ensures
        key_result_view(r) == match spec_derive_path(start@, steps@) {
            Some(key) => Ok::<Seq<u8>, WalletError>(key),
            None => Err(WalletError::DerivationFailed),
        },
{
    let mut key = start;
    let mut i: usize = 0;
    while i < steps.len()
        invariant
            i <= steps.len(),
            spec_derive_path(start@, steps@.take(i as int)) == Some(key@),
        decreases steps.len() - i,
    {
        proof {
            lemma_derive_path_step(start@, steps@.take(i as int), steps@[i as int]);
            assert(steps@.take(i as int).push(steps@[i as int]) =~= steps@.take(i + 1));
        }
        match derive_child(&key, steps[i]) {
            Some(child) => {
                key = child;
            },
            None => {
                proof {
                    lemma_derive_path_fails_on(start@, steps@, i + 1);
                }
                return Err(WalletError::DerivationFailed);
            },
        }
        i += 1;
    }
    proof {
        assert(steps@.take(i as int) =~= steps@);
    }
    Ok(key)
}

/// Derives the private key that a mnemonic phrase and a derivation path
/// select.  The passphrase of the seed is always empty.
pub fn derive_private_key(phrase: &str, path: &str) -> (r: Result<ExtendedPrivateKey, WalletError>)
    ensures
        key_result_view(r) == spec_derive_private_key(phrase@, path@),
{
    let mnemonic = match parse_mnemonic_internal(phrase) {
        Ok(m) => m,
        Err(e) => {
            return Err(e);
        },
    };
    let seed = match mnemonic.to_seed() {
        Some(seed) => seed,
        None => {
            return Err(WalletError::InvalidMnemonic);
        },
    };
    let master = match master_from_seed(seed.as_slice()) {
        Some(master) => master,
        None => {
            return Err(WalletError::MasterKeyDerivationFailed);
        },
    };
    let steps = match parse_path(path) {
        Ok(steps) => steps,
        Err(e) => {
            return Err(e);
        },
    };
    derive_path(master, &steps)
}

/// Derives the private key that a phrase and a path select and writes it
/// as Base58Check text.
pub fn derive_xprv(phrase: String, path: String) -> (r: Result<String, WalletError>)
    ensures
        text_result_view(r) == spec_derive_xprv(phrase@, path@),
{
    match derive_private_key(phrase.as_str(), path.as_str()) {
        Ok(key) => key.to_base58(),
        Err(e) => Err(e),
    }
}

} // verus!
