use vstd::prelude::*;
use crate::address::{
    address_to_script, derive_scash_address, key_change_script, spec_address_to_script,
    spec_derive_scash_address, spec_key_change_script,
};
use crate::error::{text_option_view, text_result_view, WalletError};
use crate::hd::{derive_private_key, spec_derive_private_key, spec_private_key};
use crate::mnemonic::{spec_parse_mnemonic, spec_word_count};
use crate::sign::{lemma_sign_transaction_errors, sign_with_key, spec_sign_with_key};
use crate::tx_builder::{build_p2wpkh_tx, script_option_view, spec_build_p2wpkh_tx};
use crate::utxo::{utxo_views, Utxo, UtxoView};

verus! {

/// The values of a sequence of unspent outputs, in order.
pub open spec fn spec_input_values(utxos: Seq<UtxoView>) -> Seq<u64> {
    utxos.map_values(|u: UtxoView| u.value)
}

/// The platform fee that is charged: the amount asked for, or nothing.
pub open spec fn spec_platform_fee(platform_fee_sat: Option<u64>) -> u64 {
    match platform_fee_sat {
        Some(fee) => fee,
        None => 0,
    }
}

/// The script that a platform fee is paid to.  A fee of zero needs none
/// and looks at no address; a fee above zero needs an address, and a
/// valid one.
pub open spec fn spec_platform_script(
    platform_fee: u64,
    platform_fee_address: Option<Seq<char>>,
) -> Result<Option<Seq<u8>>, WalletError> {
    if platform_fee > 0 {
        match platform_fee_address {
            None => Err(WalletError::MissingPlatformScript),
            Some(address) => match spec_address_to_script(address) {
                Ok(script) => Ok(Some(script)),
                Err(e) => Err(e),
            },
        }
    } else {
        Ok(None)
    }
}

/// What building and signing a payment yields: the signed transaction in
/// wire format as lowercase hex, or the error of the first stage that
/// fails.
///
/// The stages come in this order: the key is derived, the destination
/// address is resolved, the change script is derived from the key, the
/// platform script is resolved, the transaction is built, every input is
/// signed with the derived key.
pub open spec fn spec_build_and_sign_transaction(
    mnemonic: Seq<char>,
    path: Seq<char>,
    utxos: Seq<UtxoView>,
    to_address: Seq<char>,
    amount: u64,
    fee: u64,
    platform_fee_sat: Option<u64>,
    platform_fee_address: Option<Seq<char>>,
) -> Result<Seq<char>, WalletError> {
    let platform_fee = spec_platform_fee(platform_fee_sat);
    match spec_derive_private_key(mnemonic, path) {
        Err(e) => Err(e),
        Ok(key) => match spec_address_to_script(to_address) {
            Err(e) => Err(e),
            Ok(to_script) => match spec_key_change_script(key) {
                Err(e) => Err(e),
                Ok(change_script) => match spec_platform_script(
                    platform_fee,
                    platform_fee_address,
                ) {
                    Err(e) => Err(e),
                    Ok(platform_script) => match spec_build_p2wpkh_tx(
                        utxos,
                        to_script,
                        change_script,
                        amount,
                        fee,
                        platform_fee,
                        platform_script,
                    ) {
                        Err(e) => Err(e),
                        Ok(tx) => spec_sign_with_key(
                            tx,
                            spec_input_values(utxos),
                            spec_private_key(key),
                        ),
                    },
                },
            },
        },
    }
}

/// A platform fee above zero without an address to pay it to never yields
/// a transaction; where key, destination and change script are in order,
/// the call fails with `MissingPlatformScript`, a stage before anything is
/// built or signed.
pub proof fn lemma_platform_fee_needs_address(
    mnemonic: Seq<char>,
    path: Seq<char>,
    utxos: Seq<UtxoView>,
    to_address: Seq<char>,
    amount: u64,
    fee: u64,
    platform_fee: u64,
)
    requires
        platform_fee > 0,
    ensures
        spec_build_and_sign_transaction(
            mnemonic,
            path,
            utxos,
            to_address,
            amount,
            fee,
            Some(platform_fee),
            None,
        ) is Err,
        spec_derive_private_key(mnemonic, path) is Ok && spec_address_to_script(to_address) is Ok
            && spec_key_change_script(spec_derive_private_key(mnemonic, path).unwrap()) is Ok
            ==> spec_build_and_sign_transaction(
            mnemonic,
            path,
            utxos,
            to_address,
            amount,
            fee,
            Some(platform_fee),
            None,
        ) == Err::<Seq<char>, WalletError>(WalletError::MissingPlatformScript),
{
}

/// The amounts handed to the signer are the values of the spent outputs,
/// one per input, so the call never fails for a count of amounts that
/// differs from the count of inputs, nor for an input that does not exist.
pub proof fn lemma_build_and_sign_counts_agree(
    mnemonic: Seq<char>,
    path: Seq<char>,
    utxos: Seq<UtxoView>,
    to_address: Seq<char>,
    amount: u64,
    fee: u64,
    platform_fee_sat: Option<u64>,
    platform_fee_address: Option<Seq<char>>,
)
    requires
        utxos.len() <= usize::MAX,
    ensures
        match spec_build_and_sign_transaction(
            mnemonic,
            path,
            utxos,
            to_address,
            amount,
            fee,
            platform_fee_sat,
            platform_fee_address,
        ) {
            Err(WalletError::AmountCountMismatch { .. }) => false,
            Err(WalletError::InvalidInputIndex { .. }) => false,
            _ => true,
        },
{
    let platform_fee = spec_platform_fee(platform_fee_sat);
    if let Ok(key) = spec_derive_private_key(mnemonic, path) {
        if let Ok(to_script) = spec_address_to_script(to_address) {
            if let Ok(change_script) = spec_key_change_script(key) {
                if let Ok(script) = spec_platform_script(platform_fee, platform_fee_address) {
                    if let Ok(tx) = spec_build_p2wpkh_tx(
                        utxos,
                        to_script,
                        change_script,
                        amount,
                        fee,
                        platform_fee,
                        script,
                    ) {
                        lemma_sign_transaction_errors(
                            tx,
                            spec_input_values(utxos),
                            spec_private_key(key),
                        );
                    }
                }
            }
        }
    }
}

/// Building and signing is a function of its inputs: whatever two calls
/// on the same inputs yield is the same.
pub proof fn lemma_build_and_sign_deterministic(
    mnemonic: Seq<char>,
    path: Seq<char>,
    utxos: Seq<UtxoView>,
    to_address: Seq<char>,
    amount: u64,
    fee: u64,
    platform_fee_sat: Option<u64>,
    platform_fee_address: Option<Seq<char>>,
    first: Result<String, WalletError>,
    second: Result<String, WalletError>,
)
    requires
        text_result_view(first) == spec_build_and_sign_transaction(
            mnemonic,
            path,
            utxos,
            to_address,
            amount,
            fee,
            platform_fee_sat,
            platform_fee_address,
        ),
        text_result_view(second) == spec_build_and_sign_transaction(
            mnemonic,
            path,
            utxos,
            to_address,
            amount,
            fee,
            platform_fee_sat,
            platform_fee_address,
        ),
    ensures
        text_result_view(first) == text_result_view(second),
{
}

/// Lists the values of `utxos`, in order.
pub fn input_values(utxos: &Vec<Utxo>) -> (values: Vec<u64>)
    ensures
        values@ == spec_input_values(utxo_views(utxos@)),
{
    let mut values: Vec<u64> = Vec::new();
    let mut i: usize = 0;
    while i < utxos.len()
        invariant
            i <= utxos.len(),
            values@ == spec_input_values(utxo_views(utxos@).take(i as int)),
        decreases utxos.len() - i,
    {
        proof {
            assert(spec_input_values(utxo_views(utxos@).take(i + 1)) =~= spec_input_values(
                utxo_views(utxos@).take(i as int),
            ).push(utxos@[i as int].value));
        }
        values.push(utxos[i].value);
        i += 1;
    }
    proof {
        assert(utxo_views(utxos@).take(i as int) =~= utxo_views(utxos@));
    }
    values
}

/// Resolves the script that a platform fee is paid to.
pub fn platform_script(platform_fee: u64, platform_fee_address: &Option<String>) -> (r: Result<
    Option<Vec<u8>>,
    WalletError,
>)
    ensures
        match r {
            Ok(script) => spec_platform_script(
                platform_fee,
                text_option_view(*platform_fee_address),
            ) == Ok::<Option<Seq<u8>>, WalletError>(script_option_view(script)),
            Err(e) => spec_platform_script(
                platform_fee,
                text_option_view(*platform_fee_address),
            ) == Err::<Option<Seq<u8>>, WalletError>(e),
        },
{
    if platform_fee > 0 {
        match platform_fee_address {
            None => Err(WalletError::MissingPlatformScript),
            Some(address) => match address_to_script(address.as_str()) {
                Ok(script) => Ok(Some(script)),
                Err(e) => Err(e),
            },
        }
    } else {
        Ok(None)
    }
}

/// Produces a fresh 12-word mnemonic phrase from the system's randomness.
///
/// Which phrase comes out is not determined; whatever comes out is a
/// phrase of 12 words that parses to 16 bytes of entropy.
pub fn generate_mnemonic() -> (r: Result<String, WalletError>)
    ensures
        match r {
            Ok(p) => spec_parse_mnemonic(p@) is Ok && spec_parse_mnemonic(p@).unwrap().len() == 16
                && spec_word_count(spec_parse_mnemonic(p@).unwrap().len()) == 12,
            Err(e) => e == WalletError::MnemonicGenerationFailed,
        },
{
    crate::mnemonic::generate_mnemonic()
}

/// Derives the receiving address that a mnemonic and a path select.
pub fn derive_address(mnemonic: String, path: String) -> (r: Result<String, WalletError>)
    ensures
        text_result_view(r) == spec_derive_scash_address(mnemonic@, path@),
{
    derive_scash_address(mnemonic, path)
}

/// Spends exactly `utxos`: pays `amount` to `to_address`, the platform fee
/// if one is asked for, and `fee` to the miner, with change going back to
/// the spending key's own script; signs every input with the key that
/// `mnemonic` and `path` select.  Hands out the signed transaction in wire
/// format as lowercase hex.
pub fn build_and_sign_transaction(
    mnemonic: String,
    path: String,
    utxos: Vec<Utxo>,
    to_address: String,
    amount: u64,
    fee: u64,
    platform_fee_sat: Option<u64>,
    platform_fee_address: Option<String>,
) -> (r: Result<String, WalletError>)
    ensures
        text_result_view(r) == spec_build_and_sign_transaction(
            mnemonic@,
            path@,
            utxo_views(utxos@),
            to_address@,
            amount,
            fee,
            platform_fee_sat,
            text_option_view(platform_fee_address),
        ),
{
    let key = match derive_private_key(mnemonic.as_str(), path.as_str()) {
        Ok(key) => key,
        Err(e) => {
            return Err(e);
        },
    };
    let to_script = match address_to_script(to_address.as_str()) {
        Ok(script) => script,
        Err(e) => {
            return Err(e);
        },
    };
    let change_script = match key_change_script(&key) {
        Ok(script) => script,
        Err(e) => {
            return Err(e);
        },
    };
    let input_amounts = input_values(&utxos);
    let pf_sat = match platform_fee_sat {
        Some(fee) => fee,
        None => 0,
    };
    let pf_script = match platform_script(pf_sat, &platform_fee_address) {
        Ok(script) => script,
        Err(e) => {
            return Err(e);
        },
    };
    let tx = match build_p2wpkh_tx(utxos, to_script, change_script, amount, fee, pf_sat, pf_script) {
        Ok(tx) => tx,
        Err(e) => {
            return Err(e);
        },
    };
    sign_with_key(tx, &input_amounts, &key.private_key())
}

} // verus!
