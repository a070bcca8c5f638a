use vstd::prelude::*;
use bech32::{segwit, Fe32, Hrp};
use crate::error::{bytes_result_view, text_result_view, WalletError};
use crate::hd::{
    derive_private_key, spec_derive_private_key, spec_private_key, spec_xprv_from_base58,
    ExtendedPrivateKey,
};
use crate::keys::{hash160, public_key, spec_hash160, spec_public_key};
use crate::network::BECH32_HRP;

verus! {

/// The only witness version this wallet pays to.
pub const WITNESS_VERSION: u8 = 0;

/// Length of the witness program of a pay-to-witness-pubkey-hash output.
pub const WPKH_LEN: usize = 20;

/// The segwit address of a witness version and program under a
/// human-readable prefix; `None` where one of the three cannot be encoded.
pub uninterp spec fn spec_segwit_encode(hrp: Seq<char>, version: u8, program: Seq<u8>) -> Option<
    Seq<char>,
>;

/// The witness version and witness program that a segwit address carries;
/// `None` where the text is no segwit address.
pub uninterp spec fn spec_segwit_decode(address: Seq<char>) -> Option<(u8, Seq<u8>)>;

/// The locking script that pays to a 20-byte public-key hash: the opcode
/// of witness version 0, a push of 20 bytes, and the hash.
pub open spec fn spec_p2wpkh_script(hash: Seq<u8>) -> Seq<u8> {
    seq![0x00u8, 0x14u8] + hash
}

/// The public-key hash that a decoded address pays to.  Anything but
/// version 0 with a 20-byte program is rejected.
pub open spec fn spec_witness_program_hash(version: u8, program: Seq<u8>) -> Result<
    Seq<u8>,
    WalletError,
> {
    if version != WITNESS_VERSION {
        Err(WalletError::UnsupportedWitnessVersion { version })
    } else if program.len() != WPKH_LEN {
        Err(WalletError::InvalidWitnessProgramLength { length: program.len() as usize })
    } else {
        Ok(program)
    }
}

/// The public-key hash that an address pays to.
pub open spec fn spec_decode_address(address: Seq<char>) -> Result<Seq<u8>, WalletError> {
    match spec_segwit_decode(address) {
        None => Err(WalletError::InvalidAddress),
        Some((version, program)) => spec_witness_program_hash(version, program),
    }
}

/// The locking script that an address stands for.
pub open spec fn spec_address_to_script(address: Seq<char>) -> Result<Seq<u8>, WalletError> {
    match spec_decode_address(address) {
        Ok(hash) => Ok(spec_p2wpkh_script(hash)),
        Err(e) => Err(e),
    }
}

/// The address that pays to a public-key hash under a human-readable
/// prefix: the segwit encoding of version 0 and the hash, handed out only
/// if it decodes to that same hash.
pub open spec fn spec_encode_p2wpkh(hrp: Seq<char>, hash: Seq<u8>) -> Result<
    Seq<char>,
    WalletError,
> {
    match spec_segwit_encode(hrp, WITNESS_VERSION, hash) {
        None => Err(WalletError::AddressEncodingFailed),
        Some(address) => if spec_decode_address(address) == Ok::<Seq<u8>, WalletError>(hash) {
            Ok(address)
        } else {
            Err(WalletError::AddressEncodingFailed)
        },
    }
}

/// The address of a compressed public key: the address that pays to its
/// hash under the chain's prefix.
pub open spec fn spec_encode_address(pubkey: Seq<u8>) -> Result<Seq<char>, WalletError> {
    spec_encode_p2wpkh(BECH32_HRP@, spec_hash160(pubkey))
}

/// The address that receives for a serialized extended private key.
pub open spec fn spec_key_address(key: Seq<u8>) -> Result<Seq<char>, WalletError> {
    match spec_public_key(spec_private_key(key)) {
        None => Err(WalletError::InvalidPrivateKey),
        Some(pubkey) => spec_encode_address(pubkey),
    }
}

/// The locking script that change goes back to for a serialized extended
/// private key: the script of the key's own public key.
pub open spec fn spec_key_change_script(key: Seq<u8>) -> Result<Seq<u8>, WalletError> {
    match spec_public_key(spec_private_key(key)) {
        None => Err(WalletError::InvalidPrivateKey),
        Some(pubkey) => Ok(spec_p2wpkh_script(spec_hash160(pubkey))),
    }
}

/// The receiving address that a phrase and a path select.
pub open spec fn spec_derive_scash_address(phrase: Seq<char>, path: Seq<char>) -> Result<
    Seq<char>,
    WalletError,
> {
    match spec_derive_private_key(phrase, path) {
        Err(e) => Err(e),
        Ok(key) => spec_key_address(key),
    }
}

/// The change script of an extended private key given as text.
pub open spec fn spec_derive_change_script(xprv: Seq<char>) -> Result<Seq<u8>, WalletError> {
    match spec_xprv_from_base58(xprv) {
        None => Err(WalletError::InvalidExtendedKey),
        Some(key) => spec_key_change_script(key),
    }
}

/// Decoding rejects every witness version other than 0 and every program
/// length other than 20 bytes, and accepts the rest.
pub proof fn lemma_decode_rejects(address: Seq<char>, version: u8, program: Seq<u8>)
    requires
        spec_segwit_decode(address) == Some((version, program)),
    ensures
        version != 0 ==> spec_decode_address(address) == Err::<Seq<u8>, WalletError>(
            WalletError::UnsupportedWitnessVersion { version },
        ),
        version == 0 && program.len() != 20 ==> spec_decode_address(address) == Err::<
            Seq<u8>,
            WalletError,
        >(WalletError::InvalidWitnessProgramLength { length: program.len() as usize }),
        version == 0 && program.len() == 20 ==> spec_decode_address(address) == Ok::<
            Seq<u8>,
            WalletError,
        >(program),
        spec_address_to_script(address) is Ok <==> version == 0 && program.len() == 20,
{
}

/// Every address that this library hands out for a hash decodes to that
/// hash, which is 20 bytes long, and stands for the script that pays to it.
pub proof fn lemma_p2wpkh_round_trip(hrp: Seq<char>, hash: Seq<u8>, address: Seq<char>)
    requires
        spec_encode_p2wpkh(hrp, hash) == Ok::<Seq<char>, WalletError>(address),
    ensures
        hash.len() == 20,
        spec_decode_address(address) == Ok::<Seq<u8>, WalletError>(hash),
        spec_address_to_script(address) == Ok::<Seq<u8>, WalletError>(spec_p2wpkh_script(hash)),
{
}

/// Every address that this library hands out for a public key decodes to
/// the 20-byte hash of that key, and so to the script that pays to it.
pub proof fn lemma_address_round_trip(pubkey: Seq<u8>, address: Seq<char>)
    requires
        spec_encode_address(pubkey) == Ok::<Seq<char>, WalletError>(address),
    ensures
        spec_decode_address(address) == Ok::<Seq<u8>, WalletError>(spec_hash160(pubkey)),
        spec_hash160(pubkey).len() == 20,
        spec_address_to_script(address) == Ok::<Seq<u8>, WalletError>(
            spec_p2wpkh_script(spec_hash160(pubkey)),
        ),
{
}

/// The address derived from a phrase and a path is a function of the two:
/// whatever two derivations of the same inputs yield is the same.
pub proof fn lemma_derive_address_deterministic(
    phrase: Seq<char>,
    path: Seq<char>,
    first: Result<String, WalletError>,
    second: Result<String, WalletError>,
)
    requires
        text_result_view(first) == spec_derive_scash_address(phrase, path),
        text_result_view(second) == spec_derive_scash_address(phrase, path),
    ensures
        text_result_view(first) == text_result_view(second),
        first is Ok ==> second is Ok && first.unwrap()@ == second.unwrap()@,
        first is Err ==> second is Err && first.unwrap_err() == second.unwrap_err(),
{
}

/// The address that a derived key receives on pays to the script that the
/// same key's change goes back to.
pub proof fn lemma_key_address_pays_to_change_script(key: Seq<u8>, address: Seq<char>)
    requires
        spec_key_address(key) == Ok::<Seq<char>, WalletError>(address),
    ensures
        spec_key_change_script(key) == spec_address_to_script(address),
{
    let pubkey = spec_public_key(spec_private_key(key)).unwrap();
    lemma_address_round_trip(pubkey, address);
}

/// Encodes with `bech32::segwit::encode`, after parsing the prefix with
/// `bech32::Hrp::parse` and the version with `Fe32::try_from`.
/// Assumed without proof: the outcome is [`spec_segwit_encode`] of prefix,
/// version and program.
#[verifier::external_body]
fn segwit_encode(hrp: &str, version: u8, program: &[u8]) -> (r: Option<String>)
    ensures
        match r {
            Some(address) => spec_segwit_encode(hrp@, version, program@) == Some(address@),
            None => spec_segwit_encode(hrp@, version, program@) is None,
        },
{
    segwit::encode(Hrp::parse(hrp).ok()?, Fe32::try_from(version).ok()?, program).ok()
}

/// Decodes with `bech32::segwit::decode`, dropping the prefix and giving
/// the witness version as a number with `Fe32::to_u8`.
/// Assumed without proof: the outcome is [`spec_segwit_decode`] of the text.
#[verifier::external_body]
fn segwit_decode(address: &str) -> (r: Option<(u8, Vec<u8>)>)
    ensures
        match r {
            Some((version, program)) => spec_segwit_decode(address@) == Some((version, program@)),
            None => spec_segwit_decode(address@) is None,
        },
{
    segwit::decode(address).ok().map(|(_, version, program)| (version.to_u8(), program))
}

/// Whether two byte strings are the same.
pub fn bytes_equal(a: &[u8], b: &[u8]) -> (r: bool)
    ensures
        r == (a@ == b@),
{
    if a.len() != b.len() {
        return false;
    }
    let mut i: usize = 0;
    while i < a.len()
        invariant
            i <= a.len(),
            a.len() == b.len(),
            forall|j: int| 0 <= j < i ==> a@[j] == b@[j],
        decreases a.len() - i,
    {
        if a[i] != b[i] {
            return false;
        }
        i += 1;
    }
    assert(a@ =~= b@);
    true
}

/// Builds the locking script that pays to a 20-byte public-key hash.
pub fn p2wpkh_script(hash: &[u8]) -> (script: Vec<u8>)
    requires
        hash@.len() == 20,
    ensures
        script@ == spec_p2wpkh_script(hash@),
        script@.len() == 22,
{
    let mut script: Vec<u8> = Vec::new();
    script.push(0x00);
    script.push(0x14);
    let mut i: usize = 0;
    while i < hash.len()
        invariant
            i <= hash.len(),
            script@ == seq![0x00u8, 0x14u8] + hash@.take(i as int),
        decreases hash.len() - i,
    {
        script.push(hash[i]);
        assert(hash@.take(i + 1) =~= hash@.take(i as int).push(hash@[i as int]));
        i += 1;
    }
    assert(hash@.take(i as int) =~= hash@);
    script
}

/// Checks what an address carries and hands out the public-key hash it
/// pays to: the version must be 0 and the program 20 bytes long.
pub fn witness_program_hash(version: u8, program: Vec<u8>) -> (r: Result<Vec<u8>, WalletError>)
    ensures
        bytes_result_view(r) == spec_witness_program_hash(version, program@),
{
    if version != WITNESS_VERSION {
        return Err(WalletError::UnsupportedWitnessVersion { version });
    }
    if program.len() != WPKH_LEN {
        return Err(WalletError::InvalidWitnessProgramLength { length: program.len() });
    }
    Ok(program)
}

/// Decodes a segwit address into the 20-byte public-key hash it pays to.
pub fn decode_address(address: &str) -> (r: Result<Vec<u8>, WalletError>)
    ensures
        bytes_result_view(r) == spec_decode_address(address@),
{
    match segwit_decode(address) {
        Some((version, program)) => witness_program_hash(version, program),
        None => Err(WalletError::InvalidAddress),
    }
}

/// Resolves a segwit address into the locking script it stands for.
pub fn address_to_script(address: &str) -> (r: Result<Vec<u8>, WalletError>)
    ensures
        bytes_result_view(r) == spec_address_to_script(address@),
{
    match decode_address(address) {
        Ok(hash) => Ok(p2wpkh_script(hash.as_slice())),
        Err(e) => Err(e),
    }
}

/// Encodes the address that pays to a public-key hash under a
/// human-readable prefix, and checks that it decodes to that hash.
pub fn encode_p2wpkh(hrp: &str, hash: &[u8]) -> (r: Result<String, WalletError>)
    ensures
        text_result_view(r) == spec_encode_p2wpkh(hrp@, hash@),
{
    let address = match segwit_encode(hrp, WITNESS_VERSION, hash) {
        Some(address) => address,
        None => {
            return Err(WalletError::AddressEncodingFailed);
        },
    };
    match decode_address(address.as_str()) {
        Ok(decoded) => {
            if bytes_equal(decoded.as_slice(), hash) {
                Ok(address)
            } else {
                Err(WalletError::AddressEncodingFailed)
            }
        },
        Err(_) => Err(WalletError::AddressEncodingFailed),
    }
}

/// Encodes the receiving address of a compressed public key.
pub fn encode_address(pubkey: &[u8; 33]) -> (r: Result<String, WalletError>)
    ensures
        text_result_view(r) == spec_encode_address(pubkey@),
{
    let hash = hash160(pubkey.as_slice());
    encode_p2wpkh(BECH32_HRP, hash.as_slice())
}

/// The receiving address of an extended private key.
pub fn key_address(key: &ExtendedPrivateKey) -> (r: Result<String, WalletError>)
    ensures
        text_result_view(r) == spec_key_address(key@),
{
    match public_key(&key.private_key()) {
        Some(pubkey) => encode_address(&pubkey),
        None => Err(WalletError::InvalidPrivateKey),
    }
}

/// The script that change goes back to for an extended private key.
pub fn key_change_script(key: &ExtendedPrivateKey) -> (r: Result<Vec<u8>, WalletError>)
    ensures
        bytes_result_view(r) == spec_key_change_script(key@),
{
    match public_key(&key.private_key()) {
        Some(pubkey) => {
            let hash = hash160(pubkey.as_slice());
            Ok(p2wpkh_script(hash.as_slice()))
        },
        None => Err(WalletError::InvalidPrivateKey),
    }
}

/// Derives the receiving address that a phrase and a path select.
pub fn derive_scash_address(phrase: String, path: String) -> (r: Result<String, WalletError>)
    ensures
        text_result_view(r) == spec_derive_scash_address(phrase@, path@),
{
    match derive_private_key(phrase.as_str(), path.as_str()) {
        Ok(key) => key_address(&key),
        Err(e) => Err(e),
    }
}

/// Derives the change script of an extended private key given as
/// Base58Check text.  Change goes back to the key's own script.
pub fn derive_change_script(xprv_str: &str) -> (r: Result<Vec<u8>, WalletError>)
    ensures
        bytes_result_view(r) == spec_derive_change_script(xprv_str@),
{
    match ExtendedPrivateKey::from_base58(xprv_str) {
        Ok(key) => key_change_script(&key),
        Err(e) => Err(e),
    }
}

} // verus!
