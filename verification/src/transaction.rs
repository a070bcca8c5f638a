use vstd::prelude::*;
use bitcoin::absolute::LockTime;
use bitcoin::consensus::serialize;
use bitcoin::hashes::Hash as _;
use bitcoin::transaction::Version;
use bitcoin::{Amount, OutPoint, ScriptBuf, Sequence, TxIn, TxOut, Txid, Witness};

verus! {

/// Transaction version this wallet builds.
pub const TX_VERSION: i32 = 2;

/// Lock time this wallet builds: spendable at once.
pub const TX_LOCK_TIME: u32 = 0;

/// Sequence number of every input: opts in to replacement, no lock time.
pub const SEQUENCE_RBF_NO_LOCKTIME: u32 = 0xFFFF_FFFD;

/// One input of a transaction.
#[derive(Debug, Clone, PartialEq, Eq)]
pub struct TxInput {
    /// Id of the funding transaction, in wire byte order.
    pub txid: [u8; 32],
    /// Index of the spent output.
    pub vout: u32,
    /// Unlock script, empty in a segwit spend.
    pub script_sig: Vec<u8>,
    /// Sequence number.
    pub sequence: u32,
    /// Witness stack, empty until signed.
    pub witness: Vec<Vec<u8>>,
}

/// Mathematical model of a [`TxInput`].
pub struct TxInputView {
    pub txid: Seq<u8>,
    pub vout: u32,
    pub script_sig: Seq<u8>,
    pub sequence: u32,
    pub witness: Seq<Seq<u8>>,
}

/// The models of the items of a witness stack, in order.
pub open spec fn witness_view(witness: Seq<Vec<u8>>) -> Seq<Seq<u8>> {
    witness.map_values(|item: Vec<u8>| item@)
}

impl View for TxInput {
    type V = TxInputView;

    open spec fn view(&self) -> TxInputView {
        TxInputView {
            txid: self.txid@,
            vout: self.vout,
            script_sig: self.script_sig@,
            sequence: self.sequence,
            witness: witness_view(self.witness@),
        }
    }
}

/// One output of a transaction.
#[derive(Debug, Clone, PartialEq, Eq)]
pub struct TxOutput {
    /// Value in base units.
    pub value: u64,
    /// Locking script.
    pub script_pubkey: Vec<u8>,
}

/// Mathematical model of a [`TxOutput`].
pub struct TxOutputView {
    pub value: u64,
    pub script_pubkey: Seq<u8>,
}

impl View for TxOutput {
    type V = TxOutputView;

    open spec fn view(&self) -> TxOutputView {
        TxOutputView { value: self.value, script_pubkey: self.script_pubkey@ }
    }
}

/// A transaction, unsigned or signed.  The order of inputs and outputs is
/// part of its identity.
#[derive(Debug, Clone, PartialEq, Eq)]
pub struct Transaction {
    pub version: i32,
    pub lock_time: u32,
    pub inputs: Vec<TxInput>,
    pub outputs: Vec<TxOutput>,
}

/// Mathematical model of a [`Transaction`].
pub struct TransactionView {
    pub version: i32,
    pub lock_time: u32,
    pub inputs: Seq<TxInputView>,
    pub outputs: Seq<TxOutputView>,
}

/// The models of a sequence of inputs, in order.
pub open spec fn input_views(inputs: Seq<TxInput>) -> Seq<TxInputView> {
    inputs.map_values(|i: TxInput| i@)
}

/// The models of a sequence of outputs, in order.
pub open spec fn output_views(outputs: Seq<TxOutput>) -> Seq<TxOutputView> {
    outputs.map_values(|o: TxOutput| o@)
}

impl View for Transaction {
    type V = TransactionView;

    open spec fn view(&self) -> TransactionView {
        TransactionView {
            version: self.version,
            lock_time: self.lock_time,
            inputs: input_views(self.inputs@),
            outputs: output_views(self.outputs@),
        }
    }
}

/// The consensus wire encoding of a transaction.
pub uninterp spec fn spec_consensus_encoding(tx: TransactionView) -> Seq<u8>;

/// Serializes `tx` with `bitcoin::consensus::serialize`, after rebuilding it
/// field by field as a `bitcoin::Transaction`.
/// Assumed without proof: the bytes are [`spec_consensus_encoding`] of the
/// transaction's model.
#[verifier::external_body]
pub(crate) fn consensus_encode(tx: &Transaction) -> (bytes: Vec<u8>)
    ensures
        bytes@ == spec_consensus_encoding(tx@),
{
    let input = tx.inputs.iter().map(|i| TxIn {
        previous_output: OutPoint::new(Txid::from_byte_array(i.txid), i.vout),
        script_sig: ScriptBuf::from_bytes(i.script_sig.clone()),
        sequence: Sequence(i.sequence),
        witness: Witness::from_slice(&i.witness),
    }).collect();
    let output = tx.outputs.iter().map(|o| TxOut {
        value: Amount::from_sat(o.value),
        script_pubkey: ScriptBuf::from_bytes(o.script_pubkey.clone()),
    }).collect();
    let (version, lock_time) = (Version(tx.version), LockTime::from_consensus(tx.lock_time));
    serialize(&bitcoin::Transaction { version, lock_time, input, output })
}

} // verus!
