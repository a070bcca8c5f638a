use vstd::prelude::*;
use bitcoin::hashes::{sha512, Hash as _, HashEngine as _, Hmac, HmacEngine};
use bitcoin::secp256k1::{Message, Scalar, Secp256k1, SecretKey};
use bitcoin::WPubkeyHash;
use std::str::FromStr;
use crate::hexcode::{all_hex_digits, hex_decode};

verus! {

/// The compressed secp256k1 public key of a private scalar; `None` where
/// the 32 bytes are no private scalar (zero, or not below the group order).
pub uninterp spec fn spec_public_key(secret: Seq<u8>) -> Option<Seq<u8>>;

/// The RIPEMD-160 digest of the SHA-256 digest of `data`.
pub uninterp spec fn spec_hash160(data: Seq<u8>) -> Seq<u8>;

/// The DER encoding of the deterministic (RFC 6979) ECDSA signature of a
/// 32-byte digest; `None` where `secret` is no private scalar.
pub uninterp spec fn spec_ecdsa_der_signature(digest: Seq<u8>, secret: Seq<u8>) -> Option<
    Seq<u8>,
>;

/// The 64-byte HMAC-SHA512 of `data` under `key`.
pub uninterp spec fn spec_hmac_sha512(key: Seq<u8>, data: Seq<u8>) -> Seq<u8>;

/// The sum of two private scalars modulo the group order; `None` where one
/// of the two is no private scalar or the sum is zero.
pub uninterp spec fn spec_scalar_add(a: Seq<u8>, b: Seq<u8>) -> Option<Seq<u8>>;

/// Whether 32 bytes are a private scalar.
pub open spec fn spec_is_secret_key(secret: Seq<u8>) -> bool {
    spec_public_key(secret) is Some
}

/// The private scalar that a text of 64 hex digits spells, if it spells one.
pub open spec fn spec_secret_key_from_hex(text: Seq<char>) -> Option<Seq<u8>> {
    if text.len() == 64 && all_hex_digits(text) && spec_is_secret_key(hex_decode(text)) {
        Some(hex_decode(text))
    } else {
        None
    }
}

/// Computes the public key with `secp256k1::SecretKey::from_slice`,
/// `SecretKey::public_key` and `PublicKey::serialize`.
/// Assumed without proof: the outcome is [`spec_public_key`] of these bytes,
/// absent exactly when `from_slice` rejects them.
#[verifier::external_body]
pub(crate) fn public_key(secret: &[u8; 32]) -> (r: Option<[u8; 33]>)
    ensures
        match r {
            Some(key) => spec_public_key(secret@) == Some(key@),
            None => spec_public_key(secret@) is None,
        },
{
    SecretKey::from_slice(secret).ok().map(|k| k.public_key(&Secp256k1::new()).serialize())
}

/// Hashes with `bitcoin::WPubkeyHash::hash`, which is HASH160.
/// Assumed without proof: the 20 bytes are [`spec_hash160`] of the data.
#[verifier::external_body]
pub(crate) fn hash160(data: &[u8]) -> (digest: [u8; 20])
    ensures
        digest@ == spec_hash160(data@),
{
    WPubkeyHash::hash(data).to_byte_array()
}

/// Signs with `Secp256k1::sign_ecdsa`, which derives its nonce from key and
/// digest alone, and encodes with `Signature::serialize_der`.
/// Assumed without proof: the outcome is [`spec_ecdsa_der_signature`] of
/// digest and key, absent exactly when `SecretKey::from_slice` rejects the
/// key.
#[verifier::external_body]
pub(crate) fn ecdsa_sign_der(digest: &[u8; 32], secret: &[u8; 32]) -> (r: Option<Vec<u8>>)
    ensures
        match r {
            Some(sig) => spec_ecdsa_der_signature(digest@, secret@) == Some(sig@),
            None => spec_ecdsa_der_signature(digest@, secret@) is None,
        },
{
    let key = SecretKey::from_slice(secret).ok()?;
    let signature = Secp256k1::new().sign_ecdsa(&Message::from_digest(*digest), &key);
    Some(signature.serialize_der().to_vec())
}

/// Authenticates with `bitcoin::hashes::HmacEngine` over SHA-512: the
/// engine is keyed with `HmacEngine::new`, fed with `input` and closed
/// with `Hmac::from_engine`.
/// Assumed without proof: the 64 bytes are [`spec_hmac_sha512`] of key and
/// data.
#[verifier::external_body]
pub(crate) fn hmac_sha512(key: &[u8], data: &[u8]) -> (mac: [u8; 64])
    ensures
        mac@ == spec_hmac_sha512(key@, data@),
{
    let mut engine = HmacEngine::<sha512::Hash>::new(key);
    engine.input(data);
    Hmac::from_engine(engine).to_byte_array()
}

/// Adds with `secp256k1::SecretKey::add_tweak`, both operands read with
/// `SecretKey::from_slice`.
/// Assumed without proof: the outcome is [`spec_scalar_add`] of the two,
/// absent exactly when `from_slice` rejects one of them or `add_tweak`
/// fails.
#[verifier::external_body]
pub(crate) fn scalar_add(a: &[u8; 32], b: &[u8; 32]) -> (r: Option<[u8; 32]>)
    ensures
        match r {
            Some(sum) => spec_scalar_add(a@, b@) == Some(sum@),
            None => spec_scalar_add(a@, b@) is None,
        },
{
    let tweak = Scalar::from(SecretKey::from_slice(b).ok()?);
    SecretKey::from_slice(a).ok()?.add_tweak(&tweak).ok().map(|sum| sum.secret_bytes())
}

/// Parses a private scalar with `secp256k1::SecretKey::from_str`.
/// Assumed without proof: the text is accepted exactly when it is 64 hex
/// digits of either case whose 32 bytes `SecretKey::from_slice` accepts, and
/// the outcome is those bytes.
#[verifier::external_body]
pub(crate) fn secret_key_from_hex(text: &str) -> (r: Option<[u8; 32]>)
    ensures
        match r {
            Some(key) => spec_secret_key_from_hex(text@) == Some(key@),
            None => spec_secret_key_from_hex(text@) is None,
        },
{
    SecretKey::from_str(text).ok().map(|k| k.secret_bytes())
}

} // verus!
