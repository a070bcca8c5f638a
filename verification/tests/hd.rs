use bitcoin::bip32::{DerivationPath, Xpriv};
use bitcoin::hashes::{sha512, Hash as _, HashEngine as _, Hmac, HmacEngine};
use bitcoin::secp256k1::Secp256k1;
use scash_signer::error::WalletError;
use scash_signer::hd::{
    be_bytes, be_u32, derive_child, derive_path, derive_private_key, derive_xprv, get_network,
    master_from_seed, parse_path, step_data, ChildNumber, ExtendedPrivateKey, HARDENED_BIT,
};
use scash_signer::network::{Network, BIP32_PRIV};
use std::str::FromStr;

const ABANDON: &str =
    "abandon abandon abandon abandon abandon abandon abandon abandon abandon abandon abandon about";
const ROOT: &str = "xprv9s21ZrQH143K3GJpoapnV8SFfukcVBSfeCficPSGfubmSFDxo1kuHnLisriDvSnRRuL2Qrg5ggqHKNVpxR86QEC8w35uxmGoggxtQTPvfUu";
const FIRST_RECEIVE: &str = "xprvA2rr2X9cTZFPNgSfcnktpdefNav2w69E5SJj2cwCVZFfMe9PMq4EPHoMF7HfYYFwxDC3L98KUdGmhmamCAifxPbtSyLq9pFQJnf3AyC2JJD";
const BIP84_PATH: &str = "m/84'/0'/0'/0/0";

fn reference_xprv(phrase: &str, path: &str) -> Xpriv {
    let seed = bip39::Mnemonic::from_str(phrase).unwrap().to_seed("");
    let master = Xpriv::new_master(bitcoin::Network::Bitcoin, &seed).unwrap();
    master.derive_priv(&Secp256k1::new(), &DerivationPath::from_str(path).unwrap()).unwrap()
}

fn key_of(r: Result<ExtendedPrivateKey, WalletError>) -> ExtendedPrivateKey {
    match r {
        Ok(key) => key,
        Err(e) => panic!("no key: {:?}", e),
    }
}

fn error_of(r: Result<ExtendedPrivateKey, WalletError>) -> WalletError {
    match r {
        Ok(_) => panic!("a key where an error was due"),
        Err(e) => e,
    }
}

#[test]
fn network_is_main() {
    assert_eq!(get_network(), Network::Bitcoin);
}

#[test]
fn child_number_wire_form() {
    assert_eq!(HARDENED_BIT, 1u32 << 31);
    assert_eq!(ChildNumber { index: 0, hardened: false }.to_raw(), 0);
    assert_eq!(ChildNumber { index: 84, hardened: true }.to_raw(), 0x8000_0054);
    assert_eq!(ChildNumber { index: 0x7fff_ffff, hardened: false }.to_raw(), 0x7fff_ffff);
    assert_eq!(ChildNumber { index: 0x7fff_ffff, hardened: true }.to_raw(), 0xffff_ffff);
    assert_eq!(ChildNumber::from_raw(0), ChildNumber { index: 0, hardened: false });
    assert_eq!(ChildNumber::from_raw(0x8000_0000), ChildNumber { index: 0, hardened: true });
    assert_eq!(ChildNumber::from_raw(0xffff_ffff), ChildNumber { index: 0x7fff_ffff, hardened: true });
    for raw in [0u32, 1, 44, 0x7fff_ffff, 0x8000_0000, 0x8000_002c, 0xffff_ffff] {
        assert_eq!(ChildNumber::from_raw(raw).to_raw(), raw);
        assert_eq!(u32::from(bitcoin::bip32::ChildNumber::from(raw)), raw);
    }
}

#[test]
fn parse_path_lists_the_steps() {
    assert_eq!(
        parse_path(BIP84_PATH),
        Ok(vec![
            ChildNumber { index: 84, hardened: true },
            ChildNumber { index: 0, hardened: true },
            ChildNumber { index: 0, hardened: true },
            ChildNumber { index: 0, hardened: false },
            ChildNumber { index: 0, hardened: false },
        ])
    );
    assert_eq!(parse_path("m"), Ok(vec![]));
    assert_eq!(parse_path(""), Ok(vec![]));
    assert_eq!(
        parse_path("m/44h/2147483647"),
        Ok(vec![
            ChildNumber { index: 44, hardened: true },
            ChildNumber { index: 2147483647, hardened: false },
        ])
    );
    assert_eq!(parse_path("7/8'"), Ok(vec![
        ChildNumber { index: 7, hardened: false },
        ChildNumber { index: 8, hardened: true },
    ]));
}

#[test]
fn parse_path_rejects_malformed_text() {
    for bad in ["m/x", "m//0", "m/0/", "m/0''", "m/2147483648", "m/-1", "n/0", "m/0 /1", "m/'"] {
        assert_eq!(parse_path(bad), Err(WalletError::InvalidPath));
    }
}

#[test]
fn be_u32_reads_most_significant_first() {
    assert_eq!(be_u32(0, 0, 0, 0), 0);
    assert_eq!(be_u32(0, 0, 0, 1), 1);
    assert_eq!(be_u32(1, 2, 3, 4), 0x0102_0304);
    assert_eq!(be_u32(0x04, 0x88, 0xad, 0xe4), BIP32_PRIV);
    assert_eq!(be_u32(255, 255, 255, 255), u32::MAX);
}

#[test]
fn be_bytes_writes_most_significant_first() {
    assert_eq!(be_bytes(0), [0, 0, 0, 0]);
    assert_eq!(be_bytes(1), [0, 0, 0, 1]);
    assert_eq!(be_bytes(0x0102_0304), [1, 2, 3, 4]);
    assert_eq!(be_bytes(0x8000_0054), [0x80, 0, 0, 0x54]);
    assert_eq!(be_bytes(u32::MAX), [255, 255, 255, 255]);
    for n in [0u32, 7, 255, 256, 65_535, 65_536, 0x7fff_ffff, 0x8000_0000, u32::MAX] {
        let b = be_bytes(n);
        assert_eq!(b, n.to_be_bytes());
        assert_eq!(be_u32(b[0], b[1], b[2], b[3]), n);
    }
}

#[test]
fn step_data_of_normal_and_hardened_steps() {
    let secret = [0x11u8; 32];
    let pubkey = [0x02u8; 33];
    let normal = step_data(&secret, &pubkey, 5);
    assert_eq!(normal.len(), 37);
    assert_eq!(&normal[..33], &pubkey[..]);
    assert_eq!(&normal[33..], &[0, 0, 0, 5]);
    let last_normal = step_data(&secret, &pubkey, 0x7fff_ffff);
    assert_eq!(&last_normal[..33], &pubkey[..]);
    assert_eq!(&last_normal[33..], &[0x7f, 0xff, 0xff, 0xff]);
    let hardened = step_data(&secret, &pubkey, 0x8000_0005);
    assert_eq!(hardened.len(), 37);
    assert_eq!(hardened[0], 0);
    assert_eq!(&hardened[1..33], &secret[..]);
    assert_eq!(&hardened[33..], &[0x80, 0, 0, 5]);
}

#[test]
fn child_holds_what_the_step_digest_asks_for() {
    use_reference_digest(0);
    use_reference_digest(0x8000_0000);
    use_reference_digest(0x7fff_ffff);
}

fn use_reference_digest(raw: u32) {
    let master = master_from_seed(&[9u8; 64]).unwrap();
    let child = derive_child(&master, ChildNumber::from_raw(raw)).unwrap();
    let secret = bitcoin::secp256k1::SecretKey::from_slice(&master.private_key()).unwrap();
    let pubkey = secret.public_key(&Secp256k1::new()).serialize();
    let data = step_data(&master.private_key(), &pubkey, raw);
    let mut engine = HmacEngine::<sha512::Hash>::new(&master.chain_code());
    engine.input(&data);
    let digest = Hmac::<sha512::Hash>::from_engine(engine).to_byte_array();
    assert_eq!(&child.chain_code()[..], &digest[32..]);
    let left = bitcoin::secp256k1::SecretKey::from_slice(&digest[..32]).unwrap();
    let sum = left.add_tweak(&secret.into()).unwrap();
    assert_eq!(child.private_key(), sum.secret_bytes());
}

#[test]
fn master_key_of_known_seed() {
    let seed = hex::decode("000102030405060708090a0b0c0d0e0f").unwrap();
    let master = master_from_seed(&seed).unwrap();
    assert_eq!(
        master.to_base58(),
        Ok("xprv9s21ZrQH143K3QTDL4LXw2F7HEK3wJUD2nW2nRk4stbPy6cq3jPPqjiChkVvvNKmPGJxWUtg6LnF5kejMRNNU3TGtRBeJgk33yuGBxrMPHi".to_string())
    );
    assert_eq!(master.version(), BIP32_PRIV);
    assert_eq!(master.depth(), 0);
    let child = derive_child(&master, ChildNumber { index: 0, hardened: true }).unwrap();
    assert_eq!(
        child.to_base58(),
        Ok("xprv9uHRZZhk6KAJC1avXpDAp4MDc3sQKNxDiPvvkX8Br5ngLNv1TxvUxt4cV1rGL5hj6KCesnDYUhd7oWgT11eZG7XnxHrnYeSvkzY7d2bhkJ7".to_string())
    );
    assert_eq!(child.version(), BIP32_PRIV);
    assert_eq!(child.depth(), 1);
    assert_eq!(child.child_number(), ChildNumber { index: 0, hardened: true });
}

#[test]
fn derive_child_agrees_with_bitcoin_crate() {
    let seed = [7u8; 64];
    let master = master_from_seed(&seed).unwrap();
    let reference = Xpriv::new_master(bitcoin::Network::Bitcoin, &seed).unwrap();
    assert_eq!(master.bytes, reference.encode());
    for raw in [0u32, 1, 0x7fff_ffff, 0x8000_0000, 0x8000_0001, 0xffff_ffff] {
        let step = ChildNumber::from_raw(raw);
        let child = derive_child(&master, step).unwrap();
        let path = [bitcoin::bip32::ChildNumber::from(raw)];
        let expected = reference.derive_priv(&Secp256k1::new(), &path).unwrap();
        assert_eq!(child.bytes, expected.encode());
        assert_eq!(child.child_number(), step);
        assert_eq!(child.depth(), 1);
    }
}

#[test]
fn derive_child_needs_an_index_below_the_hardened_bit() {
    let master = master_from_seed(&[7u8; 64]).unwrap();
    for hardened in [false, true] {
        let step = ChildNumber { index: 0x8000_0000, hardened };
        assert!(derive_child(&master, step).is_none());
        assert_eq!(error_of(derive_path(master, &vec![step])), WalletError::DerivationFailed);
    }
    let last = ChildNumber { index: 0x7fff_ffff, hardened: true };
    assert!(derive_child(&master, last).is_some());
}

#[test]
fn derive_child_needs_a_key() {
    let not_a_key = ExtendedPrivateKey { bytes: [0u8; 78] };
    assert!(derive_child(&not_a_key, ChildNumber { index: 0, hardened: false }).is_none());
}

#[test]
fn derived_keys_carry_the_chain_version() {
    for path in ["m", "m/0", BIP84_PATH, "m/1'/2'/3'/4'/5'/6'"] {
        let key = key_of(derive_private_key(ABANDON, path));
        assert_eq!(key.version(), BIP32_PRIV);
        assert_eq!(key.depth() as usize, parse_path(path).unwrap().len());
    }
}

#[test]
fn root_key_of_known_phrase() {
    assert_eq!(derive_xprv(ABANDON.to_string(), "m".to_string()), Ok(ROOT.to_string()));
    let key = key_of(derive_private_key(ABANDON, "m"));
    assert_eq!(key.depth(), 0);
    assert_eq!(&key.bytes[..4], &[0x04, 0x88, 0xad, 0xe4]);
}

#[test]
fn derived_key_of_known_phrase() {
    assert_eq!(
        derive_xprv(ABANDON.to_string(), BIP84_PATH.to_string()),
        Ok(FIRST_RECEIVE.to_string())
    );
    let key = key_of(derive_private_key(ABANDON, BIP84_PATH));
    assert_eq!(key.depth(), 5);
    assert_eq!(
        hex::encode(key.private_key()),
        "4604b4b710fe91f584fff084e1a9159fe4f8408fff380596a604948474ce4fa3"
    );
}

#[test]
fn derivation_agrees_with_bitcoin_crate() {
    for path in ["m", "m/0", "m/0'", BIP84_PATH, "m/44'/0'/0'/1/7", "m/2147483647'/1"] {
        let reference = reference_xprv(ABANDON, path);
        let key = key_of(derive_private_key(ABANDON, path));
        assert_eq!(key.bytes, reference.encode());
        assert_eq!(key.private_key(), reference.private_key.secret_bytes());
        assert_eq!(key.depth(), reference.depth);
        assert_eq!(derive_xprv(ABANDON.to_string(), path.to_string()), Ok(reference.to_string()));
    }
}

#[test]
fn key_fields_agree_with_bitcoin_crate() {
    for path in ["m", "m/0", BIP84_PATH, "m/44'/0'/0'/1/7", "m/2147483647'/1"] {
        let reference = reference_xprv(ABANDON, path);
        let key = key_of(derive_private_key(ABANDON, path));
        assert_eq!(key.parent_fingerprint(), reference.parent_fingerprint.to_bytes());
        assert_eq!(key.chain_code(), reference.chain_code.to_bytes());
        assert_eq!(key.child_number().to_raw(), u32::from(reference.child_number));
    }
}

#[test]
fn key_fields_of_known_keys() {
    let root = key_of(derive_private_key(ABANDON, "m"));
    assert_eq!(root.parent_fingerprint(), [0u8; 4]);
    assert_eq!(root.child_number(), ChildNumber { index: 0, hardened: false });
    let account = key_of(derive_private_key(ABANDON, "m/84'/0'/5'"));
    assert_eq!(account.child_number(), ChildNumber { index: 5, hardened: true });
    assert_eq!(account.depth(), 3);
    let leaf = key_of(derive_private_key(ABANDON, "m/84'/0'/5'/1/16909060"));
    assert_eq!(leaf.child_number(), ChildNumber { index: 0x0102_0304, hardened: false });
    assert_eq!(&leaf.bytes[9..13], &[1, 2, 3, 4]);
    assert_eq!(&leaf.chain_code()[..], &leaf.bytes[13..45]);
    assert_eq!(leaf.bytes[45], 0);
    assert_eq!(&leaf.private_key()[..], &leaf.bytes[46..78]);
}

#[test]
fn derive_path_walks_step_by_step() {
    let root = key_of(derive_private_key(ABANDON, "m"));
    let steps = parse_path(BIP84_PATH).unwrap();
    let walked = key_of(derive_path(root, &steps));
    assert_eq!(walked.bytes, key_of(derive_private_key(ABANDON, BIP84_PATH)).bytes);
    let first = key_of(derive_path(root, &steps[..2].to_vec()));
    let rest = key_of(derive_path(first, &steps[2..].to_vec()));
    assert_eq!(rest.bytes, walked.bytes);
    let same = key_of(derive_path(root, &vec![]));
    assert_eq!(same.bytes, root.bytes);
}

#[test]
fn hardened_and_normal_children_differ() {
    let normal = key_of(derive_private_key(ABANDON, "m/0"));
    let hardened = key_of(derive_private_key(ABANDON, "m/0'"));
    assert_ne!(normal.bytes, hardened.bytes);
}

#[test]
fn derivation_is_repeatable() {
    let a = derive_xprv(ABANDON.to_string(), BIP84_PATH.to_string());
    let b = derive_xprv(ABANDON.to_string(), BIP84_PATH.to_string());
    assert_eq!(a, b);
}

#[test]
fn derive_reports_each_stage() {
    assert_eq!(error_of(derive_private_key("abandon", "m")), WalletError::InvalidMnemonic);
    assert_eq!(error_of(derive_private_key("abandon", "m/x")), WalletError::InvalidMnemonic);
    assert_eq!(error_of(derive_private_key(ABANDON, "m/x")), WalletError::InvalidPath);
    assert_eq!(
        derive_xprv(ABANDON.to_string(), "m/84'/".to_string()),
        Err(WalletError::InvalidPath)
    );
}

#[test]
fn derive_fails_past_the_deepest_level() {
    let deepest = format!("m{}", "/0".repeat(255));
    assert_eq!(key_of(derive_private_key(ABANDON, &deepest)).depth(), 255);
    let too_deep = format!("m{}", "/0".repeat(256));
    assert_eq!(error_of(derive_private_key(ABANDON, &too_deep)), WalletError::DerivationFailed);
}

#[test]
fn base58_text_round_trips() {
    let key = key_of(ExtendedPrivateKey::from_base58(FIRST_RECEIVE));
    assert_eq!(key.bytes, reference_xprv(ABANDON, BIP84_PATH).encode());
    assert_eq!(key.to_base58(), Ok(FIRST_RECEIVE.to_string()));
}

#[test]
fn base58_text_is_checked() {
    let mut broken = FIRST_RECEIVE.to_string();
    broken.pop();
    broken.push('E');
    for bad in [broken.as_str(), "", "xprv", "scash1qcr8te4kr609gcawutmrza0j4xv80jy8zls9d4y"] {
        assert_eq!(
            error_of(ExtendedPrivateKey::from_base58(bad)),
            WalletError::InvalidExtendedKey
        );
    }
    let not_a_key = ExtendedPrivateKey { bytes: [0u8; 78] };
    assert_eq!(not_a_key.to_base58(), Err(WalletError::InvalidExtendedKey));
    let step = vec![ChildNumber { index: 0, hardened: false }];
    assert_eq!(error_of(derive_path(not_a_key, &step)), WalletError::DerivationFailed);
}
