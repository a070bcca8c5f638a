use vstd::prelude::*;
use bitcoin::hashes::Hash as _;
use bitcoin::Txid;
use std::str::FromStr;
use crate::error::WalletError;
use crate::hexcode::{all_hex_digits, hex_decode};
use crate::transaction::{
    input_views, output_views, witness_view, Transaction, TransactionView, TxInput,
    TxInputView, TxOutput, TxOutputView, SEQUENCE_RBF_NO_LOCKTIME, TX_LOCK_TIME, TX_VERSION,
};
use crate::utxo::{
    lemma_total_value_prefix, lemma_total_value_step, total_value, utxo_views, Utxo, UtxoView,
};

verus! {

/// Change of this many base units or fewer is left to the miner.
pub const DUST_LIMIT: u64 = 546;

/// The model of a build result.
pub open spec fn tx_result_view(r: Result<Transaction, WalletError>) -> Result<
    TransactionView,
    WalletError,
> {
    match r {
        Ok(tx) => Ok(tx@),
        Err(e) => Err(e),
    }
}

/// The model of an optional script.
pub open spec fn script_option_view(s: Option<Vec<u8>>) -> Option<Seq<u8>> {
    match s {
        Some(v) => Some(v@),
        None => None,
    }
}

/// The 32 id bytes, in wire order, that a transaction id in text form
/// stands for: 64 hex digits, read as bytes and reversed.
pub open spec fn spec_txid_from_hex(s: Seq<char>) -> Option<Seq<u8>> {
    if s.len() == 64 && all_hex_digits(s) {
        Some(hex_decode(s).reverse())
    } else {
        None
    }
}

/// Index of the first output whose transaction id is malformed, if any.
pub open spec fn first_invalid_txid(utxos: Seq<UtxoView>) -> Option<int>
    decreases utxos.len(),
{
    if utxos.len() == 0 {
        None
    } else {
        match first_invalid_txid(utxos.drop_last()) {
            Some(k) => Some(k),
            None => if spec_txid_from_hex(utxos.last().txid) is None {
                Some(utxos.len() - 1)
            } else {
                None
            },
        }
    }
}

/// The unsigned input that spends `u`: it refers to the output, carries
/// an empty unlock script and an empty witness, and opts in to replacement.
pub open spec fn spec_funding_input(u: UtxoView) -> TxInputView
    recommends
        spec_txid_from_hex(u.txid) is Some,
{
    TxInputView {
        txid: spec_txid_from_hex(u.txid).unwrap(),
        vout: u.vout,
        script_sig: Seq::empty(),
        sequence: SEQUENCE_RBF_NO_LOCKTIME,
        witness: Seq::empty(),
    }
}

/// The unsigned inputs that spend `utxos`, one per output and in their order.
pub open spec fn spec_funding_inputs(utxos: Seq<UtxoView>) -> Seq<TxInputView> {
    utxos.map_values(|u: UtxoView| spec_funding_input(u))
}

/// Whether a change amount earns an output of its own.
pub open spec fn spec_pays_change(change: u64) -> bool {
    change > DUST_LIMIT
}

/// The outputs of a payment: the destination first, then the platform fee
/// if one is charged, then the change if it is above the dust limit.
pub open spec fn spec_payment_outputs(
    to_script: Seq<u8>,
    change_script: Seq<u8>,
    amount: u64,
    platform_fee: u64,
    platform_script: Seq<u8>,
    change: u64,
) -> Seq<TxOutputView> {
    let destination = seq![TxOutputView { value: amount, script_pubkey: to_script }];
    let charged = if platform_fee > 0 {
        destination.push(TxOutputView { value: platform_fee, script_pubkey: platform_script })
    } else {
        destination
    };
    if spec_pays_change(change) {
        charged.push(TxOutputView { value: change, script_pubkey: change_script })
    } else {
        charged
    }
}

/// What building a payment yields.
///
/// The checks come in this order: the totals must fit in 64 bits, the
/// inputs must cover amount, platform fee and miner fee, every transaction
/// id must be well formed, and a platform fee needs a script.
pub open spec fn spec_build_p2wpkh_tx(
    utxos: Seq<UtxoView>,
    to_script: Seq<u8>,
    change_script: Seq<u8>,
    amount: u64,
    fee: u64,
    platform_fee: u64,
    platform_script: Option<Seq<u8>>,
) -> Result<TransactionView, WalletError> {
    let total_in = total_value(utxos);
    let total_spent = amount + platform_fee;
    if total_in > u64::MAX || total_spent > u64::MAX {
        Err(WalletError::Overflow)
    } else if total_in < total_spent + fee {
        Err(
            WalletError::InsufficientFunds {
                available: total_in as u64,
                required: (total_spent + fee) as u128,
            },
        )
    } else if first_invalid_txid(utxos) is Some {
        Err(WalletError::InvalidTxid { index: first_invalid_txid(utxos).unwrap() as usize })
    } else if platform_fee > 0 && platform_script is None {
        Err(WalletError::MissingPlatformScript)
    } else {
        Ok(
            TransactionView {
                version: TX_VERSION,
                lock_time: TX_LOCK_TIME,
                inputs: spec_funding_inputs(utxos),
                outputs: spec_payment_outputs(
                    to_script,
                    change_script,
                    amount,
                    platform_fee,
                    match platform_script {
                        Some(s) => s,
                        None => Seq::empty(),
                    },
                    (total_in - total_spent - fee) as u64,
                ),
            },
        )
    }
}

/// A malformed id found in a prefix is the first malformed id of the whole.
pub proof fn lemma_first_invalid_txid_prefix(utxos: Seq<UtxoView>, n: int)
    requires
        0 <= n <= utxos.len(),
        first_invalid_txid(utxos.take(n)) is Some,
    ensures
        first_invalid_txid(utxos) == first_invalid_txid(utxos.take(n)),
    decreases utxos.len(),
{
    if n == utxos.len() {
        assert(utxos.take(n) =~= utxos);
    } else {
        assert(utxos.drop_last().take(n) =~= utxos.take(n));
        lemma_first_invalid_txid_prefix(utxos.drop_last(), n);
    }
}

/// Sum of the values of `outputs`, as an unbounded number.
pub open spec fn output_total(outputs: Seq<TxOutputView>) -> nat
    decreases outputs.len(),
{
    if outputs.len() == 0 {
        0
    } else {
        output_total(outputs.drop_last()) + outputs.last().value as nat
    }
}

/// The outputs that are paid whatever the change is: the destination and,
/// if a platform fee is charged, the platform.
pub open spec fn spec_fixed_outputs(
    to_script: Seq<u8>,
    amount: u64,
    platform_fee: u64,
    platform_script: Seq<u8>,
) -> Seq<TxOutputView> {
    spec_payment_outputs(to_script, Seq::empty(), amount, platform_fee, platform_script, 0)
}

/// Inputs that sum to less than amount, platform fee and miner fee together
/// never yield a transaction: the build fails with `InsufficientFunds`,
/// which reports what is there and what is needed.
pub proof fn lemma_build_insufficient_funds(
    utxos: Seq<UtxoView>,
    to_script: Seq<u8>,
    change_script: Seq<u8>,
    amount: u64,
    fee: u64,
    platform_fee: u64,
    platform_script: Option<Seq<u8>>,
)
    requires
        total_value(utxos) <= u64::MAX,
        amount + platform_fee <= u64::MAX,
        total_value(utxos) < amount + platform_fee + fee,
    ensures
        spec_build_p2wpkh_tx(
            utxos,
            to_script,
            change_script,
            amount,
            fee,
            platform_fee,
            platform_script,
        ) == Err::<TransactionView, WalletError>(
            WalletError::InsufficientFunds {
                available: total_value(utxos) as u64,
                required: (amount + platform_fee + fee) as u128,
            },
        ),
{
}

/// A platform fee without a script to pay it to never yields a transaction.
pub proof fn lemma_build_missing_platform_script(
    utxos: Seq<UtxoView>,
    to_script: Seq<u8>,
    change_script: Seq<u8>,
    amount: u64,
    fee: u64,
    platform_fee: u64,
)
    requires
        platform_fee > 0,
    ensures
        spec_build_p2wpkh_tx(
            utxos,
            to_script,
            change_script,
            amount,
            fee,
            platform_fee,
            None,
        ) is Err,
        total_value(utxos) <= u64::MAX && amount + platform_fee + fee <= total_value(utxos)
            && first_invalid_txid(utxos) is None ==> spec_build_p2wpkh_tx(
            utxos,
            to_script,
            change_script,
            amount,
            fee,
            platform_fee,
            None,
        ) == Err::<TransactionView, WalletError>(WalletError::MissingPlatformScript),
{
}

/// In a built transaction, change strictly above the dust limit appears as
/// exactly one output, the last, worth inputs minus amount, platform fee
/// and miner fee; change at or below the limit appears nowhere.  Before it
/// stand the destination and, if a platform fee is charged, the platform.
pub proof fn lemma_build_change_output(
    utxos: Seq<UtxoView>,
    to_script: Seq<u8>,
    change_script: Seq<u8>,
    amount: u64,
    fee: u64,
    platform_fee: u64,
    platform_script: Option<Seq<u8>>,
    tx: TransactionView,
)
    requires
        spec_build_p2wpkh_tx(
            utxos,
            to_script,
            change_script,
            amount,
            fee,
            platform_fee,
            platform_script,
        ) == Ok::<TransactionView, WalletError>(tx),
    ensures
        ({
            let change = total_value(utxos) - amount - platform_fee - fee;
            let fixed = spec_fixed_outputs(
                to_script,
                amount,
                platform_fee,
                match platform_script {
                    Some(s) => s,
                    None => Seq::empty(),
                },
            );
            &&& 0 <= change <= u64::MAX
            &&& fixed.len() == if platform_fee > 0 {
                2int
            } else {
                1int
            }
            &&& fixed[0] == TxOutputView { value: amount, script_pubkey: to_script }
            &&& change > DUST_LIMIT ==> tx.outputs == fixed.push(
                TxOutputView { value: change as u64, script_pubkey: change_script },
            )
            &&& change <= DUST_LIMIT ==> tx.outputs == fixed
        }),
{
}

/// A built transaction spends every unit of its inputs: what the outputs
/// do not carry goes to the miner, that is the miner fee and, where change
/// is at or below the dust limit, the change as well.
pub proof fn lemma_build_conserves_value(
    utxos: Seq<UtxoView>,
    to_script: Seq<u8>,
    change_script: Seq<u8>,
    amount: u64,
    fee: u64,
    platform_fee: u64,
    platform_script: Option<Seq<u8>>,
    tx: TransactionView,
)
    requires
        spec_build_p2wpkh_tx(
            utxos,
            to_script,
            change_script,
            amount,
            fee,
            platform_fee,
            platform_script,
        ) == Ok::<TransactionView, WalletError>(tx),
    ensures
        ({
            let change = total_value(utxos) - amount - platform_fee - fee;
            let ceded = if change > DUST_LIMIT {
                0
            } else {
                change
            };
            output_total(tx.outputs) + fee + ceded == total_value(utxos)
        }),
{
    reveal_with_fuel(output_total, 4);
    let change = (total_value(utxos) - amount - platform_fee - fee) as u64;
    let ps = match platform_script {
        Some(s) => s,
        None => Seq::empty(),
    };
    let first = TxOutputView { value: amount, script_pubkey: to_script };
    let second = TxOutputView { value: platform_fee, script_pubkey: ps };
    let third = TxOutputView { value: change, script_pubkey: change_script };
    let destination = seq![first];
    assert(destination.drop_last() =~= Seq::<TxOutputView>::empty());
    assert(output_total(destination) == amount);
    if platform_fee > 0 {
        let charged = destination.push(second);
        assert(charged.drop_last() =~= destination);
        assert(output_total(charged) == amount + platform_fee);
        if change > DUST_LIMIT {
            assert(charged.push(third).drop_last() =~= charged);
        }
    } else {
        if change > DUST_LIMIT {
            assert(destination.push(third).drop_last() =~= destination);
        }
    }
}

/// Every input of a built transaction spends the unspent output at the
/// same position, with an empty unlock script and no witness yet.
pub proof fn lemma_build_keeps_input_order(
    utxos: Seq<UtxoView>,
    to_script: Seq<u8>,
    change_script: Seq<u8>,
    amount: u64,
    fee: u64,
    platform_fee: u64,
    platform_script: Option<Seq<u8>>,
    tx: TransactionView,
    i: int,
)
    requires
        spec_build_p2wpkh_tx(
            utxos,
            to_script,
            change_script,
            amount,
            fee,
            platform_fee,
            platform_script,
        ) == Ok::<TransactionView, WalletError>(tx),
        0 <= i < utxos.len(),
    ensures
        tx.inputs.len() == utxos.len(),
        spec_txid_from_hex(utxos[i].txid) == Some(tx.inputs[i].txid),
        tx.inputs[i].vout == utxos[i].vout,
        tx.inputs[i].script_sig.len() == 0,
        tx.inputs[i].sequence == SEQUENCE_RBF_NO_LOCKTIME,
        tx.inputs[i].witness.len() == 0,
{
    lemma_no_invalid_txid(utxos, i);
}

/// Where no id is malformed, each id is well formed.
pub proof fn lemma_no_invalid_txid(utxos: Seq<UtxoView>, i: int)
    requires
        first_invalid_txid(utxos) is None,
        0 <= i < utxos.len(),
    ensures
        spec_txid_from_hex(utxos[i].txid) is Some,
    decreases utxos.len(),
{
    if i < utxos.len() - 1 {
        lemma_no_invalid_txid(utxos.drop_last(), i);
    }
}

/// Parses a transaction id with `bitcoin::Txid::from_str` and hands out its
/// bytes with `to_byte_array`.
/// Assumed without proof: the text is accepted exactly when it is 64 hex
/// digits of either case, and the bytes are those digits read pairwise and
/// then reversed, since ids are written backwards.
#[verifier::external_body]
fn txid_from_hex(s: &str) -> (r: Option<[u8; 32]>)
    ensures
        match r {
            Some(id) => spec_txid_from_hex(s@) == Some(id@),
            None => spec_txid_from_hex(s@) is None,
        },
{
    Txid::from_str(s).ok().map(|id| id.to_byte_array())
}

/// Whether `change` earns an output of its own.
pub fn pays_change(change: u64) -> (r: bool)
    ensures
        r == spec_pays_change(change),
{
    change > DUST_LIMIT
}

/// Adds up the values of `utxos`; `None` when the total leaves 64 bits.
pub fn sum_values(utxos: &Vec<Utxo>) -> (r: Option<u64>)
    ensures
        match r {
            Some(t) => t == total_value(utxo_views(utxos@)),
            None => total_value(utxo_views(utxos@)) > u64::MAX,
        },
{
    let ghost views = utxo_views(utxos@);
    let mut total: u64 = 0;
    let mut i: usize = 0;
    while i < utxos.len()
        invariant
            i <= utxos.len(),
            views == utxo_views(utxos@),
            total == total_value(views.take(i as int)),
        decreases utxos.len() - i,
    {
        proof {
            lemma_total_value_step(views, i as int);
        }
        match total.checked_add(utxos[i].value) {
            Some(t) => {
                total = t;
            },
            None => {
                proof {
                    lemma_total_value_prefix(views, i + 1);
                }
                return None;
            },
        }
        i += 1;
    }
    proof {
        assert(views.take(i as int) =~= views);
    }
    Some(total)
}

/// Builds one unsigned input per unspent output, in their order.  Fails at
/// the first output whose transaction id is malformed.
pub fn funding_inputs(utxos: &Vec<Utxo>) -> (r: Result<Vec<TxInput>, WalletError>)
    ensures
        match r {
            Ok(inputs) => first_invalid_txid(utxo_views(utxos@)) is None && input_views(inputs@)
                == spec_funding_inputs(utxo_views(utxos@)),
            Err(e) => first_invalid_txid(utxo_views(utxos@)) is Some && e
                == (WalletError::InvalidTxid {
                index: first_invalid_txid(utxo_views(utxos@)).unwrap() as usize,
            }),
        },
{
    let ghost views = utxo_views(utxos@);
    let mut inputs: Vec<TxInput> = Vec::new();
    let mut i: usize = 0;
    while i < utxos.len()
        invariant
            i <= utxos.len(),
            views == utxo_views(utxos@),
            first_invalid_txid(views.take(i as int)) is None,
            input_views(inputs@) == spec_funding_inputs(views.take(i as int)),
        decreases utxos.len() - i,
    {
        proof {
            assert(views.take(i + 1).drop_last() =~= views.take(i as int));
        }
        match txid_from_hex(utxos[i].txid.as_str()) {
            Some(txid) => {
                let input = TxInput {
                    txid,
                    vout: utxos[i].vout,
                    script_sig: Vec::new(),
                    sequence: SEQUENCE_RBF_NO_LOCKTIME,
                    witness: Vec::new(),
                };
                proof {
                    assert(witness_view(input.witness@) =~= Seq::<Seq<u8>>::empty());
                    assert(input@ == spec_funding_input(views[i as int]));
                    assert(input_views(inputs@.push(input)) =~= input_views(inputs@).push(
                        input@,
                    ));
                    assert(spec_funding_inputs(views.take(i + 1)) =~= spec_funding_inputs(
                        views.take(i as int),
                    ).push(spec_funding_input(views[i as int])));
                }
                inputs.push(input);
            },
            None => {
                proof {
                    lemma_first_invalid_txid_prefix(views, i + 1);
                }
                return Err(WalletError::InvalidTxid { index: i });
            },
        }
        i += 1;
    }
    proof {
        assert(views.take(i as int) =~= views);
    }
    Ok(inputs)
}

/// Lists the outputs of a payment: destination, platform fee if charged,
/// change if above the dust limit.
pub fn payment_outputs(
    to_script: Vec<u8>,
    change_script: Vec<u8>,
    amount: u64,
    platform_fee: u64,
    platform_script: Vec<u8>,
    change: u64,
) -> (outputs: Vec<TxOutput>)
    ensures
        output_views(outputs@) == spec_payment_outputs(
            to_script@,
            change_script@,
            amount,
            platform_fee,
            platform_script@,
            change,
        ),
{
    let mut outputs: Vec<TxOutput> = Vec::new();
    let destination = TxOutput { value: amount, script_pubkey: to_script };
    outputs.push(destination);
    assert(output_views(outputs@) =~= seq![destination@]);
    if platform_fee > 0 {
        let charged = TxOutput { value: platform_fee, script_pubkey: platform_script };
        outputs.push(charged);
        assert(output_views(outputs@) =~= seq![destination@].push(charged@));
    }
    let ghost before = output_views(outputs@);
    if pays_change(change) {
        let back = TxOutput { value: change, script_pubkey: change_script };
        outputs.push(back);
        assert(output_views(outputs@) =~= before.push(back@));
    }
    outputs
}

/// Builds the unsigned transaction that spends exactly `utxos` to pay
/// `amount_sat` to `to_script`, `platform_fee_sat` to `platform_script` and
/// `fee_sat` to the miner, with the remainder going back to `change_script`
/// when it is above the dust limit.
pub fn build_p2wpkh_tx(
    utxos: Vec<Utxo>,
    to_script: Vec<u8>,
    change_script: Vec<u8>,
    amount_sat: u64,
    fee_sat: u64,
    platform_fee_sat: u64,
    platform_script: Option<Vec<u8>>,
) -> (r: Result<Transaction, WalletError>)
    ensures
        tx_result_view(r) == spec_build_p2wpkh_tx(
            utxo_views(utxos@),
            to_script@,
            change_script@,
            amount_sat,
            fee_sat,
            platform_fee_sat,
            script_option_view(platform_script),
        ),
{
    let total_in = match sum_values(&utxos) {
        Some(t) => t,
        None => {
            return Err(WalletError::Overflow);
        },
    };
    let total_spent = match amount_sat.checked_add(platform_fee_sat) {
        Some(t) => t,
        None => {
            return Err(WalletError::Overflow);
        },
    };
    let required: u128 = total_spent as u128 + fee_sat as u128;
    if (total_in as u128) < required {
        return Err(WalletError::InsufficientFunds { available: total_in, required });
    }
    let inputs = match funding_inputs(&utxos) {
        Ok(inputs) => inputs,
        Err(e) => {
            return Err(e);
        },
    };
    let platform_script = match platform_script {
        Some(s) => s,
        None => {
            if platform_fee_sat > 0 {
                return Err(WalletError::MissingPlatformScript);
            }
            Vec::new()
        },
    };
    let change = total_in - total_spent - fee_sat;
    let outputs = payment_outputs(
        to_script,
        change_script,
        amount_sat,
        platform_fee_sat,
        platform_script,
        change,
    );
    Ok(Transaction { version: TX_VERSION, lock_time: TX_LOCK_TIME, inputs, outputs })
}

} // verus!
