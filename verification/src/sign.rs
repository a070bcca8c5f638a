use vstd::prelude::*;
use bitcoin::absolute::LockTime;
use bitcoin::hashes::Hash as _;
use bitcoin::sighash::{EcdsaSighashType, SighashCache};
use bitcoin::transaction::Version;
use bitcoin::Transaction as WireTransaction;
use bitcoin::{Amount, OutPoint, Script, Sequence, TxIn, TxOut, Txid};
use crate::address::{p2wpkh_script, spec_p2wpkh_script};
use crate::error::{text_result_view, WalletError};
use crate::hexcode::{encode_lower, hex_lower, lemma_hex_lower_is_hex, lemma_hex_round_trip};
use crate::keys::{
    ecdsa_sign_der, hash160, public_key, secret_key_from_hex, spec_ecdsa_der_signature,
    spec_hash160, spec_public_key, spec_secret_key_from_hex,
};
use crate::transaction::{
    consensus_encode, input_views, spec_consensus_encoding, witness_view, Transaction,
    TransactionView, TxInput, TxInputView,
};
use crate::tx_builder::tx_result_view;

verus! {

/// The hash type byte that follows every signature: all inputs and all
/// outputs are committed to.
pub const SIGHASH_ALL: u8 = 0x01;

/// Whether a transaction is unsigned: every input has an empty unlock
/// script and an empty witness.
pub open spec fn spec_is_unsigned(tx: TransactionView) -> bool {
    forall|i: int|
        0 <= i < tx.inputs.len() ==> (#[trigger] tx.inputs[i]).script_sig.len() == 0
            && tx.inputs[i].witness.len() == 0
}

/// The segwit version-0 signature hash, under a hash type, of the input at
/// `index` of `tx`, which spends `value` locked by `script_pubkey`; `None`
/// where the hash type is not a standard one, the transaction has no such
/// input or the script is not a pay-to-witness-pubkey-hash script.
pub uninterp spec fn spec_p2wpkh_sighash(
    tx: TransactionView,
    index: usize,
    script_pubkey: Seq<u8>,
    value: u64,
    hash_type: u32,
) -> Option<Seq<u8>>;

/// Computes the signature hash with
/// `bitcoin::sighash::SighashCache::p2wpkh_signature_hash`, after reading
/// the hash type with `EcdsaSighashType::from_standard` and rebuilding the
/// transaction field by field as a `bitcoin::Transaction`.  Unlock scripts
/// and witnesses are empty by the precondition, and are left at that
/// default.
/// Assumed without proof: the outcome is [`spec_p2wpkh_sighash`] of these
/// arguments.
#[verifier::external_body]
fn p2wpkh_sighash(
    tx: &Transaction,
    index: usize,
    script_pubkey: &[u8],
    value: u64,
    hash_type: u32,
) -> (r: Option<[u8; 32]>)
    requires
        spec_is_unsigned(tx@),
    ensures
        match r {
            Some(digest) => spec_p2wpkh_sighash(tx@, index, script_pubkey@, value, hash_type)
                == Some(digest@),
            None => spec_p2wpkh_sighash(tx@, index, script_pubkey@, value, hash_type) is None,
        },
{
    let input = tx.inputs.iter().map(|i| TxIn {
        previous_output: OutPoint::new(Txid::from_byte_array(i.txid), i.vout),
        sequence: Sequence(i.sequence),
        ..Default::default()
    }).collect();
    let output = tx.outputs.iter().map(|o| TxOut {
        value: Amount::from_sat(o.value),
        script_pubkey: o.script_pubkey.clone().into(),
    }).collect();
    let lock_time = LockTime::from_consensus(tx.lock_time);
    let tx = WireTransaction { version: Version(tx.version), lock_time, input, output };
    SighashCache::new(&tx).p2wpkh_signature_hash(
        index, Script::from_bytes(script_pubkey), Amount::from_sat(value),
        EcdsaSighashType::from_standard(hash_type).ok()?,
    ).ok().map(|digest| digest.to_byte_array())
}

/// The witness of a signed input: the signature followed by the hash type
/// byte, then the compressed public key.
pub open spec fn spec_witness(signature: Seq<u8>, pubkey: Seq<u8>) -> Seq<Seq<u8>> {
    seq![signature.push(SIGHASH_ALL), pubkey]
}

/// The input at `index` of an unsigned `tx` once signed: the same input
/// with the witness attached.  The signature is made over the hash of type
/// [`SIGHASH_ALL`], the type whose byte follows it in the witness.
pub open spec fn spec_sign_input(
    tx: TransactionView,
    index: usize,
    script_pubkey: Seq<u8>,
    amount: u64,
    secret: Seq<u8>,
    pubkey: Seq<u8>,
) -> Result<TxInputView, WalletError> {
    if index >= tx.inputs.len() {
        Err(WalletError::InvalidInputIndex { index })
    } else {
        match spec_p2wpkh_sighash(tx, index, script_pubkey, amount, SIGHASH_ALL as u32) {
            None => Err(WalletError::SigningFailed),
            Some(digest) => match spec_ecdsa_der_signature(digest, secret) {
                None => Err(WalletError::SigningFailed),
                Some(signature) => Ok(
                    TxInputView {
                        txid: tx.inputs[index as int].txid,
                        vout: tx.inputs[index as int].vout,
                        script_sig: Seq::empty(),
                        sequence: tx.inputs[index as int].sequence,
                        witness: spec_witness(signature, pubkey),
                    },
                ),
            },
        }
    }
}

/// The first `n` inputs of `tx` once signed, in index order; the error of
/// the first input that cannot be signed otherwise.
pub open spec fn spec_sign_inputs(
    tx: TransactionView,
    amounts: Seq<u64>,
    script_pubkey: Seq<u8>,
    secret: Seq<u8>,
    pubkey: Seq<u8>,
    n: nat,
) -> Result<Seq<TxInputView>, WalletError>
    decreases n,
{
    if n == 0 {
        Ok(Seq::empty())
    } else {
        match spec_sign_inputs(tx, amounts, script_pubkey, secret, pubkey, (n - 1) as nat) {
            Err(e) => Err(e),
            Ok(done) => match spec_sign_input(
                tx,
                (n - 1) as usize,
                script_pubkey,
                amounts[n - 1],
                secret,
                pubkey,
            ) {
                Err(e) => Err(e),
                Ok(input) => Ok(done.push(input)),
            },
        }
    }
}

/// An input without its unlock script and its witness.
pub open spec fn spec_unsigned_input(input: TxInputView) -> TxInputView {
    TxInputView {
        txid: input.txid,
        vout: input.vout,
        script_sig: Seq::empty(),
        sequence: input.sequence,
        witness: Seq::empty(),
    }
}

/// A sequence of inputs without their unlock scripts and witnesses.
pub open spec fn spec_unsigned_inputs(inputs: Seq<TxInputView>) -> Seq<TxInputView> {
    inputs.map_values(|input: TxInputView| spec_unsigned_input(input))
}

/// A transaction without the unlock scripts and witnesses of its inputs:
/// what is signed.
pub open spec fn spec_unsigned(tx: TransactionView) -> TransactionView {
    TransactionView {
        version: tx.version,
        lock_time: tx.lock_time,
        inputs: spec_unsigned_inputs(tx.inputs),
        outputs: tx.outputs,
    }
}

/// What signing every input of `tx` with one private scalar yields.
///
/// The public key and the script it locks are derived once; the amounts
/// must be as many as the inputs, which is checked before anything is
/// signed.  Unlock scripts and witnesses that `tx` already carries are
/// dropped first, so they take no part in what is signed.
pub open spec fn spec_sign_transaction(
    tx: TransactionView,
    amounts: Seq<u64>,
    secret: Seq<u8>,
) -> Result<TransactionView, WalletError> {
    match spec_public_key(secret) {
        None => Err(WalletError::SigningFailed),
        Some(pubkey) => if amounts.len() != tx.inputs.len() {
            Err(
                WalletError::AmountCountMismatch {
                    expected: tx.inputs.len() as usize,
                    actual: amounts.len() as usize,
                },
            )
        } else {
            match spec_sign_inputs(
                spec_unsigned(tx),
                amounts,
                spec_p2wpkh_script(spec_hash160(pubkey)),
                secret,
                pubkey,
                tx.inputs.len(),
            ) {
                Err(e) => Err(e),
                Ok(inputs) => Ok(
                    TransactionView {
                        version: tx.version,
                        lock_time: tx.lock_time,
                        inputs,
                        outputs: tx.outputs,
                    },
                ),
            }
        },
    }
}

/// The lowercase hex of the wire encoding of the signed transaction.
pub open spec fn spec_sign_with_key(tx: TransactionView, amounts: Seq<u64>, secret: Seq<u8>) -> Result<
    Seq<char>,
    WalletError,
> {
    match spec_sign_transaction(tx, amounts, secret) {
        Err(e) => Err(e),
        Ok(signed) => Ok(hex_lower(spec_consensus_encoding(signed))),
    }
}

/// What signing with a private scalar given as 64 hex digits yields.
pub open spec fn spec_sign_tx_p2wpkh(
    tx: TransactionView,
    amounts: Seq<u64>,
    private_key_hex: Seq<char>,
) -> Result<Seq<char>, WalletError> {
    match spec_secret_key_from_hex(private_key_hex) {
        None => Err(WalletError::SigningFailed),
        Some(secret) => spec_sign_with_key(tx, amounts, secret),
    }
}

/// Once an input could not be signed, no longer run of inputs is signed:
/// the first error stands.
pub proof fn lemma_sign_inputs_error_stands(
    tx: TransactionView,
    amounts: Seq<u64>,
    script_pubkey: Seq<u8>,
    secret: Seq<u8>,
    pubkey: Seq<u8>,
    m: nat,
    n: nat,
)
    requires
        m <= n,
        spec_sign_inputs(tx, amounts, script_pubkey, secret, pubkey, m) is Err,
    ensures
        spec_sign_inputs(tx, amounts, script_pubkey, secret, pubkey, n) == spec_sign_inputs(
            tx,
            amounts,
            script_pubkey,
            secret,
            pubkey,
            m,
        ),
    decreases n,
{
    if m < n {
        lemma_sign_inputs_error_stands(
            tx,
            amounts,
            script_pubkey,
            secret,
            pubkey,
            m,
            (n - 1) as nat,
        );
    }
}

/// Signed inputs keep their place and what they spend; each carries
/// exactly two witness items, the signature ending in the hash type byte
/// and then the public key.
pub proof fn lemma_sign_inputs_shape(
    tx: TransactionView,
    amounts: Seq<u64>,
    script_pubkey: Seq<u8>,
    secret: Seq<u8>,
    pubkey: Seq<u8>,
    n: nat,
    i: int,
)
    requires
        n <= tx.inputs.len() <= usize::MAX,
        spec_sign_inputs(tx, amounts, script_pubkey, secret, pubkey, n) is Ok,
        0 <= i < n,
    ensures
        ({
            let signed = spec_sign_inputs(tx, amounts, script_pubkey, secret, pubkey, n).unwrap();
            &&& signed.len() == n
            &&& signed[i].txid == tx.inputs[i].txid
            &&& signed[i].vout == tx.inputs[i].vout
            &&& signed[i].script_sig.len() == 0
            &&& signed[i].sequence == tx.inputs[i].sequence
            &&& signed[i].witness.len() == 2
            &&& signed[i].witness[0].len() >= 1
            &&& signed[i].witness[0].last() == SIGHASH_ALL
            &&& signed[i].witness[1] == pubkey
            &&& spec_sign_input(tx, i as usize, script_pubkey, amounts[i], secret, pubkey) == Ok::<
                TxInputView,
                WalletError,
            >(signed[i])
        }),
    decreases n,
{
    lemma_sign_inputs_len(tx, amounts, script_pubkey, secret, pubkey, n);
    if i < n - 1 {
        lemma_sign_inputs_len(tx, amounts, script_pubkey, secret, pubkey, (n - 1) as nat);
        lemma_sign_inputs_shape(tx, amounts, script_pubkey, secret, pubkey, (n - 1) as nat, i);
    } else {
        lemma_sign_inputs_len(tx, amounts, script_pubkey, secret, pubkey, (n - 1) as nat);
    }
}

/// Signing `n` inputs yields `n` inputs, and signs every shorter run too.
pub proof fn lemma_sign_inputs_len(
    tx: TransactionView,
    amounts: Seq<u64>,
    script_pubkey: Seq<u8>,
    secret: Seq<u8>,
    pubkey: Seq<u8>,
    n: nat,
)
    requires
        spec_sign_inputs(tx, amounts, script_pubkey, secret, pubkey, n) is Ok,
    ensures
        spec_sign_inputs(tx, amounts, script_pubkey, secret, pubkey, n).unwrap().len() == n,
        n > 0 ==> spec_sign_inputs(tx, amounts, script_pubkey, secret, pubkey, (n - 1) as nat) is Ok,
    decreases n,
{
    if n > 0 {
        lemma_sign_inputs_len(tx, amounts, script_pubkey, secret, pubkey, (n - 1) as nat);
    }
}

/// A signed transaction is the unsigned one with witnesses attached:
/// version, lock time, outputs and the order and references of the inputs
/// are unchanged, every unlock script is empty, and every input carries a
/// two-item witness whose signature ends in the hash type byte and whose
/// key is the signer's.
pub proof fn lemma_signed_transaction_shape(
    tx: TransactionView,
    amounts: Seq<u64>,
    secret: Seq<u8>,
    signed: TransactionView,
    i: int,
)
    requires
        spec_sign_transaction(tx, amounts, secret) == Ok::<TransactionView, WalletError>(signed),
        0 <= i < tx.inputs.len() <= usize::MAX,
    ensures
        amounts.len() == tx.inputs.len(),
        signed.version == tx.version,
        signed.lock_time == tx.lock_time,
        signed.outputs == tx.outputs,
        signed.inputs.len() == tx.inputs.len(),
        signed.inputs[i].txid == tx.inputs[i].txid,
        signed.inputs[i].vout == tx.inputs[i].vout,
        signed.inputs[i].script_sig.len() == 0,
        signed.inputs[i].sequence == tx.inputs[i].sequence,
        signed.inputs[i].witness.len() == 2,
        signed.inputs[i].witness[0].len() >= 1,
        signed.inputs[i].witness[0].last() == SIGHASH_ALL,
        spec_public_key(secret) == Some(signed.inputs[i].witness[1]),
{
    let pubkey = spec_public_key(secret).unwrap();
    lemma_sign_inputs_shape(
        spec_unsigned(tx),
        amounts,
        spec_p2wpkh_script(spec_hash160(pubkey)),
        secret,
        pubkey,
        tx.inputs.len(),
        i,
    );
}

/// Unlock scripts and witnesses that a transaction already carries are
/// replaced and take no part in what is signed: two transactions that
/// differ in nothing else are signed alike.
pub proof fn lemma_prior_witnesses_are_replaced(
    tx: TransactionView,
    other: TransactionView,
    amounts: Seq<u64>,
    secret: Seq<u8>,
)
    requires
        spec_unsigned(tx) == spec_unsigned(other),
    ensures
        spec_sign_transaction(tx, amounts, secret) == spec_sign_transaction(
            other,
            amounts,
            secret,
        ),
{
    assert(spec_unsigned(tx).inputs.len() == tx.inputs.len());
    assert(spec_unsigned(other).inputs.len() == other.inputs.len());
}

/// A transaction stripped of unlock scripts and witnesses is unsigned, and
/// stripping an unsigned transaction changes nothing.
pub proof fn lemma_unsigned_is_unsigned(tx: TransactionView)
    ensures
        spec_is_unsigned(spec_unsigned(tx)),
        spec_is_unsigned(tx) ==> spec_unsigned(tx) == tx,
{
    if spec_is_unsigned(tx) {
        assert forall|i: int| 0 <= i < tx.inputs.len() implies spec_unsigned_input(tx.inputs[i])
            == tx.inputs[i] by {
            assert(tx.inputs[i].script_sig =~= Seq::<u8>::empty());
            assert(tx.inputs[i].witness =~= Seq::<Seq<u8>>::empty());
        }
        assert(spec_unsigned_inputs(tx.inputs) =~= tx.inputs);
    }
}

/// Signing every input of a transaction never fails for want of an input:
/// each index it signs at is an index of the transaction.
pub proof fn lemma_sign_inputs_index_in_range(
    tx: TransactionView,
    amounts: Seq<u64>,
    script_pubkey: Seq<u8>,
    secret: Seq<u8>,
    pubkey: Seq<u8>,
    n: nat,
)
    requires
        n <= tx.inputs.len() <= usize::MAX,
    ensures
        !(spec_sign_inputs(tx, amounts, script_pubkey, secret, pubkey, n) matches Err(
            WalletError::InvalidInputIndex { .. },
        )),
    decreases n,
{
    if n > 0 {
        lemma_sign_inputs_index_in_range(
            tx,
            amounts,
            script_pubkey,
            secret,
            pubkey,
            (n - 1) as nat,
        );
    }
}

/// Signing a whole transaction fails only on a bad key, on a count of
/// amounts that differs from the count of inputs, or in a primitive.
pub proof fn lemma_sign_transaction_errors(tx: TransactionView, amounts: Seq<u64>, secret: Seq<u8>)
    requires
        tx.inputs.len() <= usize::MAX,
        amounts.len() <= usize::MAX,
    ensures
        match spec_sign_transaction(tx, amounts, secret) {
            Ok(_) => amounts.len() == tx.inputs.len() && spec_public_key(secret) is Some,
            Err(WalletError::SigningFailed) => true,
            Err(WalletError::AmountCountMismatch { expected, actual }) => expected
                == tx.inputs.len() && actual == amounts.len() && expected != actual,
            Err(_) => false,
        },
{
    match spec_public_key(secret) {
        Some(pubkey) => {
            if amounts.len() == tx.inputs.len() {
                let script = spec_p2wpkh_script(spec_hash160(pubkey));
                let unsigned = spec_unsigned(tx);
                let n = tx.inputs.len();
                lemma_sign_inputs_index_in_range(unsigned, amounts, script, secret, pubkey, n);
                lemma_sign_inputs_errors(unsigned, amounts, script, secret, pubkey, n);
            }
        },
        None => {},
    }
}

/// Signing a run of inputs fails only with `InvalidInputIndex` or
/// `SigningFailed`.
pub proof fn lemma_sign_inputs_errors(
    tx: TransactionView,
    amounts: Seq<u64>,
    script_pubkey: Seq<u8>,
    secret: Seq<u8>,
    pubkey: Seq<u8>,
    n: nat,
)
    ensures
        match spec_sign_inputs(tx, amounts, script_pubkey, secret, pubkey, n) {
            Ok(_) => true,
            Err(WalletError::SigningFailed) => true,
            Err(WalletError::InvalidInputIndex { .. }) => true,
            Err(_) => false,
        },
    decreases n,
{
    if n > 0 {
        lemma_sign_inputs_errors(tx, amounts, script_pubkey, secret, pubkey, (n - 1) as nat);
    }
}

/// Signing is a function of transaction, amounts and key: whatever two
/// runs on the same three yield is the same, witness bytes included.
pub proof fn lemma_signing_deterministic(
    tx: TransactionView,
    amounts: Seq<u64>,
    secret: Seq<u8>,
    first: Result<Transaction, WalletError>,
    second: Result<Transaction, WalletError>,
)
    requires
        tx_result_view(first) == spec_sign_transaction(tx, amounts, secret),
        tx_result_view(second) == spec_sign_transaction(tx, amounts, secret),
    ensures
        tx_result_view(first) == tx_result_view(second),
        first is Ok ==> second is Ok && forall|i: int|
            0 <= i < first.unwrap()@.inputs.len() ==> (#[trigger] first.unwrap()@.inputs[i]).witness
                == second.unwrap()@.inputs[i].witness,
{
}

/// Signing with a key written as lowercase hex is signing with the key.
pub proof fn lemma_sign_with_hex_of_key(tx: TransactionView, amounts: Seq<u64>, secret: Seq<u8>)
    requires
        secret.len() == 32,
    ensures
        spec_sign_tx_p2wpkh(tx, amounts, hex_lower(secret)) == spec_sign_with_key(
            tx,
            amounts,
            secret,
        ),
{
    lemma_hex_lower_is_hex(secret);
    lemma_hex_round_trip(secret);
}

/// Signs the input at `index` of the unsigned `tx` and hands it out with
/// signature and public key as its witness.
pub fn sign_input(
    tx: &Transaction,
    index: usize,
    script_pubkey: &[u8],
    amount: u64,
    secret: &[u8; 32],
    pubkey: &[u8; 33],
) -> (r: Result<TxInput, WalletError>)
    requires
        spec_is_unsigned(tx@),
    ensures
        match r {
            Ok(input) => spec_sign_input(tx@, index, script_pubkey@, amount, secret@, pubkey@)
                == Ok::<TxInputView, WalletError>(input@),
            Err(e) => spec_sign_input(tx@, index, script_pubkey@, amount, secret@, pubkey@)
                == Err::<TxInputView, WalletError>(e),
        },
{
    if index >= tx.inputs.len() {
        return Err(WalletError::InvalidInputIndex { index });
    }
    let digest = match p2wpkh_sighash(tx, index, script_pubkey, amount, SIGHASH_ALL as u32) {
        Some(digest) => digest,
        None => {
            return Err(WalletError::SigningFailed);
        },
    };
    let mut signature = match ecdsa_sign_der(&digest, secret) {
        Some(signature) => signature,
        None => {
            return Err(WalletError::SigningFailed);
        },
    };
    let ghost der = signature@;
    signature.push(SIGHASH_ALL);
    let key = vstd::slice::slice_to_vec(pubkey.as_slice());
    let mut witness: Vec<Vec<u8>> = Vec::new();
    witness.push(signature);
    witness.push(key);
    let spent = &tx.inputs[index];
    let input = TxInput {
        txid: spent.txid,
        vout: spent.vout,
        script_sig: Vec::new(),
        sequence: spent.sequence,
        witness,
    };
    proof {
        assert(witness_view(input.witness@) =~= spec_witness(der, pubkey@));
        assert(tx@.inputs[index as int] == tx.inputs@[index as int]@);
    }
    Ok(input)
}

/// Drops the unlock script and the witness of every input.
pub fn unsigned(tx: Transaction) -> (r: Transaction)
    ensures
        r@ == spec_unsigned(tx@),
        spec_is_unsigned(r@),
{
    proof {
        lemma_unsigned_is_unsigned(tx@);
    }
    let mut inputs: Vec<TxInput> = Vec::new();
    let mut i: usize = 0;
    while i < tx.inputs.len()
        invariant
            i <= tx.inputs.len(),
            input_views(inputs@) == spec_unsigned_inputs(input_views(tx.inputs@).take(i as int)),
        decreases tx.inputs.len() - i,
    {
        let spent = &tx.inputs[i];
        let input = TxInput {
            txid: spent.txid,
            vout: spent.vout,
            script_sig: Vec::new(),
            sequence: spent.sequence,
            witness: Vec::new(),
        };
        proof {
            assert(witness_view(input.witness@) =~= Seq::<Seq<u8>>::empty());
            assert(input@ == spec_unsigned_input(tx.inputs@[i as int]@));
            assert(input_views(inputs@.push(input)) =~= input_views(inputs@).push(input@));
            assert(spec_unsigned_inputs(input_views(tx.inputs@).take(i + 1))
                =~= spec_unsigned_inputs(input_views(tx.inputs@).take(i as int)).push(
                spec_unsigned_input(tx.inputs@[i as int]@),
            ));
        }
        inputs.push(input);
        i += 1;
    }
    proof {
        assert(input_views(tx.inputs@).take(i as int) =~= input_views(tx.inputs@));
    }
    Transaction { version: tx.version, lock_time: tx.lock_time, inputs, outputs: tx.outputs }
}

/// Signs every input of `tx` with one private scalar, in index order, and
/// hands out the transaction with the witnesses attached.
pub fn sign_transaction(tx: Transaction, input_amounts: &Vec<u64>, secret: &[u8; 32]) -> (r: Result<
    Transaction,
    WalletError,
>)
    ensures
        tx_result_view(r) == spec_sign_transaction(tx@, input_amounts@, secret@),
{
    let pubkey = match public_key(secret) {
        Some(pubkey) => pubkey,
        None => {
            return Err(WalletError::SigningFailed);
        },
    };
    let hash = hash160(pubkey.as_slice());
    let script_pubkey = p2wpkh_script(hash.as_slice());
    let n_inputs = tx.inputs.len();
    if input_amounts.len() != n_inputs {
        return Err(
            WalletError::AmountCountMismatch { expected: n_inputs, actual: input_amounts.len() },
        );
    }
    let bare = unsigned(tx);
    let mut signed: Vec<TxInput> = Vec::new();
    let mut i: usize = 0;
    assert(input_views(signed@) =~= Seq::<TxInputView>::empty());
    while i < n_inputs
        invariant
            i <= n_inputs,
            n_inputs == tx@.inputs.len(),
            bare@ == spec_unsigned(tx@),
            spec_is_unsigned(bare@),
            input_amounts.len() == n_inputs,
            spec_public_key(secret@) == Some(pubkey@),
            script_pubkey@ == spec_p2wpkh_script(spec_hash160(pubkey@)),
            spec_sign_inputs(
                bare@,
                input_amounts@,
                script_pubkey@,
                secret@,
                pubkey@,
                i as nat,
            ) == Ok::<Seq<TxInputView>, WalletError>(input_views(signed@)),
        decreases n_inputs - i,
    {
        match sign_input(&bare, i, script_pubkey.as_slice(), input_amounts[i], secret, &pubkey) {
            Ok(input) => {
                proof {
                    assert(input_views(signed@.push(input)) =~= input_views(signed@).push(input@));
                }
                signed.push(input);
            },
            Err(e) => {
                proof {
                    assert(spec_sign_inputs(
                        bare@,
                        input_amounts@,
                        script_pubkey@,
                        secret@,
                        pubkey@,
                        (i + 1) as nat,
                    ) == Err::<Seq<TxInputView>, WalletError>(e));
                    lemma_sign_inputs_error_stands(
                        bare@,
                        input_amounts@,
                        script_pubkey@,
                        secret@,
                        pubkey@,
                        (i + 1) as nat,
                        n_inputs as nat,
                    );
                }
                return Err(e);
            },
        }
        i += 1;
    }
    Ok(
        Transaction {
            version: bare.version,
            lock_time: bare.lock_time,
            inputs: signed,
            outputs: bare.outputs,
        },
    )
}

/// Signs `tx` with a private scalar and hands out the signed transaction
/// in wire format, as lowercase hex.
pub fn sign_with_key(tx: Transaction, input_amounts: &Vec<u64>, secret: &[u8; 32]) -> (r: Result<
    String,
    WalletError,
>)
    ensures
        text_result_view(r) == spec_sign_with_key(tx@, input_amounts@, secret@),
{
    match sign_transaction(tx, input_amounts, secret) {
        Ok(signed) => {
            let bytes = consensus_encode(&signed);
            Ok(encode_lower(bytes.as_slice()))
        },
        Err(e) => Err(e),
    }
}

/// Signs `tx` with the private scalar that `private_key_hex` spells and
/// hands out the signed transaction in wire format, as lowercase hex.
pub fn sign_tx_p2wpkh(tx: Transaction, input_amounts: Vec<u64>, private_key_hex: String) -> (r:
    Result<String, WalletError>)
    ensures
        text_result_view(r) == spec_sign_tx_p2wpkh(tx@, input_amounts@, private_key_hex@),
{
    match secret_key_from_hex(private_key_hex.as_str()) {
        Some(secret) => sign_with_key(tx, &input_amounts, &secret),
        None => Err(WalletError::SigningFailed),
    }
}

} // verus!
