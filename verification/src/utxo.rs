use vstd::prelude::*;

verus! {

/// An unspent output as the caller fetched it.
///
/// Only `txid`, `vout` and `value` are consumed when spending; the other
/// fields are carried for the caller's information.
#[derive(Debug, Clone)]
pub struct Utxo {
    /// Id of the funding transaction: 64 hex digits, as block explorers show it.
    pub txid: String,
    /// Index of the output within the funding transaction.
    pub vout: u32,
    /// Value in base units.
    pub value: u64,
    /// Locking script in hex.
    pub script_pubkey: String,
    /// Address that owns the output.
    pub address: String,
    /// Height of the confirming block, if confirmed.
    pub height: Option<u32>,
}

/// Mathematical model of a [`Utxo`].
pub struct UtxoView {
    pub txid: Seq<char>,
    pub vout: u32,
    pub value: u64,
    pub script_pubkey: Seq<char>,
    pub address: Seq<char>,
    pub height: Option<u32>,
}

impl View for Utxo {
    type V = UtxoView;

    open spec fn view(&self) -> UtxoView {
        UtxoView {
            txid: self.txid@,
            vout: self.vout,
            value: self.value,
            script_pubkey: self.script_pubkey@,
            address: self.address@,
            height: self.height,
        }
    }
}

/// The models of a sequence of unspent outputs, in order.
pub open spec fn utxo_views(utxos: Seq<Utxo>) -> Seq<UtxoView> {
    utxos.map_values(|u: Utxo| u@)
}

/// Sum of the values of `utxos`, as an unbounded number.
pub open spec fn total_value(utxos: Seq<UtxoView>) -> nat
    decreases utxos.len(),
{
    if utxos.len() == 0 {
        0
    } else {
        total_value(utxos.drop_last()) + utxos.last().value as nat
    }
}

/// The total of a prefix never exceeds the total of the whole.
pub proof fn lemma_total_value_prefix(utxos: Seq<UtxoView>, n: int)
    requires
        0 <= n <= utxos.len(),
    ensures
        total_value(utxos.take(n)) <= total_value(utxos),
    decreases utxos.len(),
{
    if n == utxos.len() {
        assert(utxos.take(n) =~= utxos);
    } else {
        assert(utxos.drop_last().take(n) =~= utxos.take(n));
        lemma_total_value_prefix(utxos.drop_last(), n);
    }
}

/// Extending a prefix by one element adds that element's value.
pub proof fn lemma_total_value_step(utxos: Seq<UtxoView>, n: int)
    requires
        0 <= n < utxos.len(),
    ensures
        total_value(utxos.take(n + 1)) == total_value(utxos.take(n)) + utxos[n].value,
{
    assert(utxos.take(n + 1).drop_last() =~= utxos.take(n));
}

} // verus!
