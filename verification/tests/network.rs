use scash_signer::network::{
    ScashNetwork, BECH32_HRP, BIP32_PRIV, BIP32_PUB, PUBKEY_HASH, SCRIPT_HASH, WIF,
};

#[test]
fn scash_parameters() {
    let n = ScashNetwork::scash();
    assert_eq!(n.bech32_hrp, "scash");
    assert_eq!(n.bip32_pub, 0x0488b21e);
    assert_eq!(n.bip32_priv, 0x0488ade4);
    assert_eq!(n.pubkey_hash, 0x3c);
    assert_eq!(n.script_hash, 0x7d);
    assert_eq!(n.wif, 0x80);
}

#[test]
fn constants_match_the_parameters() {
    let n = ScashNetwork::scash();
    assert_eq!(n.bech32_hrp, BECH32_HRP);
    assert_eq!(n.bip32_pub, BIP32_PUB);
    assert_eq!(n.bip32_priv, BIP32_PRIV);
    assert_eq!(n.pubkey_hash, PUBKEY_HASH);
    assert_eq!(n.script_hash, SCRIPT_HASH);
    assert_eq!(n.wif, WIF);
}
