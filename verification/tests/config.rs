use floresta_ffi::config::{
    decode_roots, resolve_assume_utreexo, resolve_assume_valid, AssumeUtreexoValue,
    AssumeValidArg, Config, Network, NodeAssumeValid,
};
use floresta_ffi::hex::NodeHash;

const GENESIS: &str = "000000000019d6689c085ae165831e934ff763ae46a2a6c172b3f1b60a8ce26f";

fn genesis_bytes() -> [u8; 32] {
    let mut b = [0u8; 32];
    let fwd: Vec<u8> = (0..32)
        .map(|i| u8::from_str_radix(&GENESIS[2 * i..2 * i + 2], 16).unwrap())
        .collect();
    for i in 0..32 {
        b[i] = fwd[31 - i];
    }
    b
}

fn root(byte: u8) -> String {
    format!("{:02x}", byte).repeat(32)
}

fn base_config() -> Config {
    Config {
        datadir: "/tmp/floresta".to_string(),
        network: Network::Signet,
        disable_dns_seeds: true,
        assume_valid: AssumeValidArg::Hardcoded,
        wallet_xpub: Some(vec!["xpub1".to_string()]),
        wallet_descriptor: None,
        config_file: Some("/etc/floresta.toml".to_string()),
        proxy: Some("127.0.0.1:9050".to_string()),
        cfilters: true,
        filters_start_height: Some(-1),
        zmq_address: None,
        connect: vec!["1.2.3.4:38333".to_string()],
        json_rpc_address: Some("127.0.0.1:8332".to_string()),
        log_to_stdout: true,
        log_to_file: false,
        assume_utreexo: true,
        debug: false,
        user_agent: "ffi-test".to_string(),
        assumeutreexo_value: None,
        electrum_address: Some("0.0.0.0:50001".to_string()),
        enable_electrum_tls: false,
        electrum_address_tls: None,
        tls_key_path: None,
        tls_cert_path: Some("/tmp/cert.pem".to_string()),
        generate_cert: true,
        allow_v1_fallback: true,
        backfill: false,
    }
}

#[test]
fn assume_valid_modes() {
    assert_eq!(resolve_assume_valid(AssumeValidArg::Disabled), NodeAssumeValid::Disabled);
    assert_eq!(resolve_assume_valid(AssumeValidArg::Hardcoded), NodeAssumeValid::Hardcoded);
    assert_eq!(
        resolve_assume_valid(AssumeValidArg::UserInput { block_hash: GENESIS.to_string() }),
        NodeAssumeValid::UserInput(genesis_bytes())
    );
}

#[test]
fn malformed_assume_valid_hash_becomes_all_zeros() {
    assert_eq!(
        resolve_assume_valid(AssumeValidArg::UserInput { block_hash: "not a hash".to_string() }),
        NodeAssumeValid::UserInput([0u8; 32])
    );
}

#[test]
fn roots_are_decoded_in_order() {
    let roots = vec![root(0x01), "ab".repeat(32), root(0xff)];
    let decoded = decode_roots(&roots).unwrap();
    assert_eq!(
        decoded,
        vec![NodeHash::Hash([1u8; 32]), NodeHash::Hash([0xabu8; 32]), NodeHash::Hash([0xffu8; 32])]
    );
    let mut mixed = [0u8; 32];
    mixed[0] = 0x12;
    mixed[31] = 0x34;
    let s = format!("12{}34", "00".repeat(30));
    assert_eq!(decode_roots(&vec![s]).unwrap(), vec![NodeHash::Hash(mixed)]);
    assert_eq!(decode_roots(&vec![]).unwrap(), vec![]);
}

#[test]
fn one_bad_root_rejects_all() {
    let roots = vec![root(0x01), "zz".repeat(32), root(0x02)];
    assert_eq!(decode_roots(&roots), None);
    let short = vec![root(0x01)[..62].to_string()];
    assert_eq!(decode_roots(&short), None);
}

#[test]
fn assume_utreexo_value_is_resolved() {
    let v = AssumeUtreexoValue {
        block_hash: GENESIS.to_string(),
        height: 880_000,
        roots: vec![root(0x07), root(0x08)],
        leaves: 2_000_000,
    };
    let r = resolve_assume_utreexo(Some(v)).unwrap();
    assert_eq!(r.block_hash, genesis_bytes());
    assert_eq!(r.height, 880_000);
    assert_eq!(r.leaves, 2_000_000);
    assert_eq!(r.roots, vec![NodeHash::Hash([7u8; 32]), NodeHash::Hash([8u8; 32])]);
}

#[test]
fn assume_utreexo_with_bad_block_hash_keeps_zero_hash() {
    let v = AssumeUtreexoValue {
        block_hash: "xyz".to_string(),
        height: 1,
        roots: vec![],
        leaves: 0,
    };
    let r = resolve_assume_utreexo(Some(v)).unwrap();
    assert_eq!(r.block_hash, [0u8; 32]);
    assert!(r.roots.is_empty());
}

#[test]
fn assume_utreexo_with_bad_root_is_dropped() {
    let v = AssumeUtreexoValue {
        block_hash: GENESIS.to_string(),
        height: 1,
        roots: vec![root(0x07), "nothex".to_string()],
        leaves: 3,
    };
    assert!(resolve_assume_utreexo(Some(v)).is_none());
    assert!(resolve_assume_utreexo(None).is_none());
}

#[test]
fn node_config_carries_every_setting() {
    let c = base_config();
    let n = c.clone().into_node_config();
    assert_eq!(n.network, Network::Signet);
    assert_eq!(n.datadir, c.datadir);
    assert_eq!(n.disable_dns_seeds, c.disable_dns_seeds);
    assert_eq!(n.wallet_xpub, c.wallet_xpub);
    assert_eq!(n.wallet_descriptor, c.wallet_descriptor);
    assert_eq!(n.config_file, c.config_file);
    assert_eq!(n.proxy, c.proxy);
    assert_eq!(n.cfilters, c.cfilters);
    assert_eq!(n.filters_start_height, c.filters_start_height);
    assert_eq!(n.zmq_address, c.zmq_address);
    assert_eq!(n.connect, c.connect);
    assert_eq!(n.json_rpc_address, c.json_rpc_address);
    assert_eq!(n.log_to_stdout, c.log_to_stdout);
    assert_eq!(n.log_to_file, c.log_to_file);
    assert_eq!(n.assume_utreexo, c.assume_utreexo);
    assert_eq!(n.debug, c.debug);
    assert_eq!(n.user_agent, c.user_agent);
    assert_eq!(n.electrum_address, c.electrum_address);
    assert_eq!(n.enable_electrum_tls, c.enable_electrum_tls);
    assert_eq!(n.electrum_address_tls, c.electrum_address_tls);
    assert_eq!(n.tls_key_path, c.tls_key_path);
    assert_eq!(n.tls_cert_path, c.tls_cert_path);
    assert_eq!(n.generate_cert, c.generate_cert);
    assert_eq!(n.allow_v1_fallback, c.allow_v1_fallback);
    assert_eq!(n.backfill, c.backfill);
    assert_eq!(n.assume_valid, NodeAssumeValid::Hardcoded);
    assert!(n.assumeutreexo_value.is_none());
}

#[test]
fn node_config_decodes_hashes() {
    let mut c = base_config();
    c.assume_valid = AssumeValidArg::UserInput { block_hash: GENESIS.to_string() };
    c.assumeutreexo_value = Some(AssumeUtreexoValue {
        block_hash: GENESIS.to_string(),
        height: 10,
        roots: vec![root(0x42)],
        leaves: 1,
    });
    let n = c.into_node_config();
    assert_eq!(n.assume_valid, NodeAssumeValid::UserInput(genesis_bytes()));
    let u = n.assumeutreexo_value.unwrap();
    assert_eq!(u.roots, vec![NodeHash::Hash([0x42u8; 32])]);
    assert_eq!(u.block_hash, genesis_bytes());
}
