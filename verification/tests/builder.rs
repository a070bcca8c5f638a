use bitcoin::hashes::Hash as _;
use scash_signer::error::WalletError;
use scash_signer::transaction::{Transaction, TxInput, TxOutput};
use scash_signer::tx_builder::{
    build_p2wpkh_tx, funding_inputs, pays_change, payment_outputs, sum_values, DUST_LIMIT,
};
use scash_signer::Utxo;
use std::str::FromStr;

const TXID_A: &str = "00112233445566778899aabbccddeeff00112233445566778899aabbccddeeff";
const TXID_B: &str = "FFEEDDCCBBAA99887766554433221100ffeeddccbbaa99887766554433221100";

fn utxo(txid: &str, vout: u32, value: u64) -> Utxo {
    Utxo {
        txid: txid.to_string(),
        vout,
        value,
        script_pubkey: String::new(),
        address: String::new(),
        height: None,
    }
}

fn script(tag: u8) -> Vec<u8> {
    let mut s = vec![0x00, 0x14];
    s.extend_from_slice(&[tag; 20]);
    s
}

fn reversed(hex_text: &str) -> [u8; 32] {
    let mut bytes = hex::decode(hex_text).unwrap();
    bytes.reverse();
    let mut out = [0u8; 32];
    out.copy_from_slice(&bytes);
    out
}

#[test]
fn dust_limit_is_546() {
    assert_eq!(DUST_LIMIT, 546);
    assert!(!pays_change(0));
    assert!(!pays_change(546));
    assert!(pays_change(547));
    assert!(pays_change(u64::MAX));
}

#[test]
fn sum_values_adds_up() {
    assert_eq!(sum_values(&vec![]), Some(0));
    assert_eq!(sum_values(&vec![utxo(TXID_A, 0, 7)]), Some(7));
    let three = vec![utxo(TXID_A, 0, 1), utxo(TXID_A, 1, 20), utxo(TXID_B, 2, 300)];
    assert_eq!(sum_values(&three), Some(321));
}

#[test]
fn sum_values_detects_overflow() {
    let edge = vec![utxo(TXID_A, 0, u64::MAX - 1), utxo(TXID_A, 1, 1)];
    assert_eq!(sum_values(&edge), Some(u64::MAX));
    let over = vec![utxo(TXID_A, 0, u64::MAX), utxo(TXID_A, 1, 1)];
    assert_eq!(sum_values(&over), None);
    let later = vec![utxo(TXID_A, 0, 5), utxo(TXID_A, 1, u64::MAX), utxo(TXID_A, 2, 0)];
    assert_eq!(sum_values(&later), None);
}

#[test]
fn funding_inputs_follow_utxo_order() {
    let utxos = vec![utxo(TXID_A, 3, 10), utxo(TXID_B, 0, 20)];
    let inputs = funding_inputs(&utxos).unwrap();
    assert_eq!(
        inputs,
        vec![
            TxInput {
                txid: reversed(TXID_A),
                vout: 3,
                script_sig: vec![],
                sequence: 0xFFFF_FFFD,
                witness: vec![],
            },
            TxInput {
                txid: reversed(TXID_B),
                vout: 0,
                script_sig: vec![],
                sequence: 0xFFFF_FFFD,
                witness: vec![],
            },
        ]
    );
}

#[test]
fn txid_bytes_are_reversed_text() {
    let text = "0100000000000000000000000000000000000000000000000000000000000000";
    let inputs = funding_inputs(&vec![utxo(text, 0, 1)]).unwrap();
    let mut expected = [0u8; 32];
    expected[31] = 0x01;
    assert_eq!(inputs[0].txid, expected);
}

#[test]
fn txid_agrees_with_bitcoin_crate() {
    for text in [TXID_A, TXID_B] {
        let inputs = funding_inputs(&vec![utxo(text, 0, 1)]).unwrap();
        let reference = bitcoin::Txid::from_str(text).unwrap();
        assert_eq!(inputs[0].txid, reference.to_byte_array());
    }
}

#[test]
fn malformed_txid_is_reported_with_its_index() {
    let short = &TXID_A[..62];
    let long = format!("{}00", TXID_A);
    let not_hex = format!("{}zz", &TXID_A[..62]);
    let wide = format!("{}\u{e9}", &TXID_A[..62]);
    for bad in [short, long.as_str(), not_hex.as_str(), wide.as_str(), ""] {
        let utxos = vec![utxo(TXID_A, 0, 10), utxo(bad, 0, 20), utxo("", 0, 30)];
        assert_eq!(funding_inputs(&utxos), Err(WalletError::InvalidTxid { index: 1 }));
    }
    assert_eq!(
        funding_inputs(&vec![utxo("xyz", 0, 1)]),
        Err(WalletError::InvalidTxid { index: 0 })
    );
}

#[test]
fn payment_outputs_destination_only() {
    let outs = payment_outputs(script(1), script(2), 99_500, 0, vec![], 500);
    assert_eq!(outs, vec![TxOutput { value: 99_500, script_pubkey: script(1) }]);
}

#[test]
fn payment_outputs_with_everything() {
    let outs = payment_outputs(script(1), script(2), 1000, 30, script(3), 547);
    assert_eq!(
        outs,
        vec![
            TxOutput { value: 1000, script_pubkey: script(1) },
            TxOutput { value: 30, script_pubkey: script(3) },
            TxOutput { value: 547, script_pubkey: script(2) },
        ]
    );
}

#[test]
fn build_pays_destination_and_change() {
    let tx = build_p2wpkh_tx(
        vec![utxo(TXID_A, 1, 100_000)],
        script(1),
        script(2),
        50_000,
        1_000,
        0,
        None,
    )
    .unwrap();
    assert_eq!(
        tx,
        Transaction {
            version: 2,
            lock_time: 0,
            inputs: vec![TxInput {
                txid: reversed(TXID_A),
                vout: 1,
                script_sig: vec![],
                sequence: 0xFFFF_FFFD,
                witness: vec![],
            }],
            outputs: vec![
                TxOutput { value: 50_000, script_pubkey: script(1) },
                TxOutput { value: 49_000, script_pubkey: script(2) },
            ],
        }
    );
}

#[test]
fn build_leaves_dust_to_the_miner() {
    let tx = build_p2wpkh_tx(
        vec![utxo(TXID_A, 1, 100_000)],
        script(1),
        script(2),
        99_500,
        0,
        0,
        None,
    )
    .unwrap();
    assert_eq!(tx.outputs, vec![TxOutput { value: 99_500, script_pubkey: script(1) }]);
    assert_eq!(tx.inputs.len(), 1);
}

#[test]
fn build_change_of_500_after_the_fee() {
    let tx = build_p2wpkh_tx(
        vec![utxo(TXID_A, 1, 100_000)],
        script(1),
        script(2),
        98_500,
        1_000,
        0,
        None,
    )
    .unwrap();
    assert_eq!(tx.outputs, vec![TxOutput { value: 98_500, script_pubkey: script(1) }]);
    let short = build_p2wpkh_tx(
        vec![utxo(TXID_A, 1, 100_000)],
        script(1),
        script(2),
        99_500,
        1_000,
        0,
        None,
    );
    assert_eq!(
        short,
        Err(WalletError::InsufficientFunds { available: 100_000, required: 100_500 })
    );
}

#[test]
fn build_change_at_and_above_the_limit() {
    let at = build_p2wpkh_tx(vec![utxo(TXID_A, 0, 2_000)], script(1), script(2), 1_000, 454, 0, None)
        .unwrap();
    assert_eq!(at.outputs.len(), 1);
    let above =
        build_p2wpkh_tx(vec![utxo(TXID_A, 0, 2_000)], script(1), script(2), 1_000, 453, 0, None)
            .unwrap();
    assert_eq!(above.outputs.len(), 2);
    assert_eq!(above.outputs[1], TxOutput { value: 547, script_pubkey: script(2) });
    let none = build_p2wpkh_tx(vec![utxo(TXID_A, 0, 2_000)], script(1), script(2), 1_000, 1_000, 0, None)
        .unwrap();
    assert_eq!(none.outputs, vec![TxOutput { value: 1_000, script_pubkey: script(1) }]);
}

#[test]
fn built_inputs_have_empty_unlock_scripts_and_witnesses() {
    let tx = build_p2wpkh_tx(
        vec![utxo(TXID_A, 0, 60_000), utxo(TXID_B, 5, 40_000)],
        script(1),
        script(2),
        50_000,
        1_000,
        0,
        None,
    )
    .unwrap();
    for input in &tx.inputs {
        assert!(input.script_sig.is_empty());
        assert!(input.witness.is_empty());
        assert_eq!(input.sequence, 0xFFFF_FFFD);
    }
}

#[test]
fn build_with_platform_fee() {
    let tx = build_p2wpkh_tx(
        vec![utxo(TXID_A, 0, 60_000), utxo(TXID_B, 5, 40_000)],
        script(1),
        script(2),
        50_000,
        1_000,
        2_500,
        Some(script(3)),
    )
    .unwrap();
    assert_eq!(tx.inputs.len(), 2);
    assert_eq!(tx.inputs[0].txid, reversed(TXID_A));
    assert_eq!(tx.inputs[1].txid, reversed(TXID_B));
    assert_eq!(tx.inputs[1].vout, 5);
    assert_eq!(
        tx.outputs,
        vec![
            TxOutput { value: 50_000, script_pubkey: script(1) },
            TxOutput { value: 2_500, script_pubkey: script(3) },
            TxOutput { value: 46_500, script_pubkey: script(2) },
        ]
    );
}

#[test]
fn build_ignores_platform_script_without_fee() {
    let tx = build_p2wpkh_tx(
        vec![utxo(TXID_A, 0, 10_000)],
        script(1),
        script(2),
        5_000,
        100,
        0,
        Some(script(3)),
    )
    .unwrap();
    assert_eq!(
        tx.outputs,
        vec![
            TxOutput { value: 5_000, script_pubkey: script(1) },
            TxOutput { value: 4_900, script_pubkey: script(2) },
        ]
    );
}

#[test]
fn build_fails_on_insufficient_funds() {
    let r = build_p2wpkh_tx(
        vec![utxo(TXID_A, 0, 50_000), utxo(TXID_B, 0, 999)],
        script(1),
        script(2),
        50_000,
        1_000,
        0,
        None,
    );
    assert_eq!(r, Err(WalletError::InsufficientFunds { available: 50_999, required: 51_000 }));
    let exact = build_p2wpkh_tx(
        vec![utxo(TXID_A, 0, 50_000), utxo(TXID_B, 0, 1_000)],
        script(1),
        script(2),
        50_000,
        1_000,
        0,
        None,
    );
    assert!(exact.is_ok());
}

#[test]
fn build_counts_the_platform_fee_as_spent() {
    let r = build_p2wpkh_tx(vec![utxo(TXID_A, 0, 1_000)], script(1), script(2), 900, 50, 51, Some(script(3)));
    assert_eq!(r, Err(WalletError::InsufficientFunds { available: 1_000, required: 1_001 }));
}

#[test]
fn build_reports_a_requirement_beyond_64_bits() {
    let r = build_p2wpkh_tx(vec![utxo(TXID_A, 0, 1)], script(1), script(2), u64::MAX, 2, 0, None);
    assert_eq!(
        r,
        Err(WalletError::InsufficientFunds { available: 1, required: u64::MAX as u128 + 2 })
    );
}

#[test]
fn build_fails_on_overflow() {
    let sum = build_p2wpkh_tx(
        vec![utxo(TXID_A, 0, u64::MAX), utxo(TXID_B, 0, 1)],
        script(1),
        script(2),
        1,
        1,
        0,
        None,
    );
    assert_eq!(sum, Err(WalletError::Overflow));
    let spent = build_p2wpkh_tx(vec![utxo(TXID_A, 0, 10)], script(1), script(2), u64::MAX, 0, 1, Some(script(3)));
    assert_eq!(spent, Err(WalletError::Overflow));
}

#[test]
fn build_checks_funds_before_txids() {
    let r = build_p2wpkh_tx(vec![utxo("bad", 0, 10)], script(1), script(2), 11, 0, 0, None);
    assert_eq!(r, Err(WalletError::InsufficientFunds { available: 10, required: 11 }));
    let r = build_p2wpkh_tx(vec![utxo("bad", 0, 10)], script(1), script(2), 10, 0, 0, None);
    assert_eq!(r, Err(WalletError::InvalidTxid { index: 0 }));
}

#[test]
fn build_fails_without_platform_script() {
    let r = build_p2wpkh_tx(vec![utxo(TXID_A, 0, 10_000)], script(1), script(2), 5_000, 100, 1, None);
    assert_eq!(r, Err(WalletError::MissingPlatformScript));
    let r = build_p2wpkh_tx(vec![utxo("bad", 0, 10_000)], script(1), script(2), 5_000, 100, 1, None);
    assert_eq!(r, Err(WalletError::InvalidTxid { index: 0 }));
}

#[test]
fn build_with_no_inputs_and_nothing_to_pay() {
    let tx = build_p2wpkh_tx(vec![], script(1), script(2), 0, 0, 0, None).unwrap();
    assert!(tx.inputs.is_empty());
    assert_eq!(tx.outputs, vec![TxOutput { value: 0, script_pubkey: script(1) }]);
}

#[test]
fn build_conserves_value() {
    for (amount, fee, pf) in [(50_000u64, 1_000u64, 0u64), (99_000, 500, 100), (10, 0, 0), (98_000, 1_454, 0)] {
        let ps = if pf > 0 { Some(script(3)) } else { None };
        let tx = build_p2wpkh_tx(
            vec![utxo(TXID_A, 0, 70_000), utxo(TXID_B, 1, 30_000)],
            script(1),
            script(2),
            amount,
            fee,
            pf,
            ps,
        )
        .unwrap();
        let paid: u64 = tx.outputs.iter().map(|o| o.value).sum();
        let change = 100_000 - amount - fee - pf;
        let ceded = if change > 546 { 0 } else { change };
        assert_eq!(paid + fee + ceded, 100_000);
    }
}
