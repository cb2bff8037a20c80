//! The node's configuration as the embedding application writes it, and the
//! settings the node is started with.
use vstd::prelude::*;

use crate::hex::{
    block_hash_or_zero, hex_bytes, hex_digit_value, is_hex_hash,
    lemma_block_hash_read_in_display_order, lemma_root_read_in_written_order,
    parse_block_hash_or_zero, parse_node_hash, NodeHash,
};

verus! {

/// The Bitcoin network to run on.
#[derive(Clone, Copy, Debug, PartialEq, Eq, Structural)]
pub enum Network {
    /// Bitcoin mainnet.
    Bitcoin,
    /// Bitcoin signet.
    Signet,
    /// Bitcoin testnet.
    Testnet,
    /// Bitcoin regtest.
    Regtest,
    /// Bitcoin testnet4.
    Testnet4,
}

/// Configures the assume-valid behavior for script validation.
#[derive(Clone, Debug)]
pub enum AssumeValidArg {
    /// Validate all scripts from genesis.
    Disabled,
    /// Use Floresta's hard-coded block hash.
    Hardcoded,
    /// Use a user-provided block hash (64-character hex string).
    UserInput { block_hash: String },
}

/// A pre-computed Utreexo accumulator state.
#[derive(Clone, Debug)]
pub struct AssumeUtreexoValue {
    /// The block hash at which this accumulator state is valid.
    pub block_hash: String,
    /// The block height at which this accumulator state is valid.
    pub height: u32,
    /// The Utreexo accumulator roots at this block, as hex strings.
    pub roots: Vec<String>,
    /// The number of leaves in the Utreexo accumulator at this block.
    pub leaves: u64,
}

/// Which blocks the node assumes to have valid scripts, with the hash resolved.
#[derive(Clone, Copy, Debug, PartialEq, Eq)]
pub enum NodeAssumeValid {
    /// Validate all scripts from genesis.
    Disabled,
    /// Use the node's hard-coded block hash.
    Hardcoded,
    /// Assume valid up to this block (hash bytes in internal order).
    UserInput([u8; 32]),
}

/// A pre-computed Utreexo accumulator state with its hashes decoded.
#[derive(Clone, Debug)]
pub struct NodeAssumeUtreexo {
    /// The block hash at which this accumulator state is valid (internal byte order).
    pub block_hash: [u8; 32],
    /// The block height at which this accumulator state is valid.
    pub height: u32,
    /// The accumulator roots at this block.
    pub roots: Vec<NodeHash>,
    /// The number of leaves in the accumulator at this block.
    pub leaves: u64,
}

/// `r` is what the assume-valid setting `arg` resolves to: a user-provided
/// hash that is not 64 hex digits becomes the all-zero hash.
pub open spec fn assume_valid_resolves_to(arg: AssumeValidArg, r: NodeAssumeValid) -> bool {
    match arg {
        AssumeValidArg::Disabled => r is Disabled,
        AssumeValidArg::Hardcoded => r is Hardcoded,
        AssumeValidArg::UserInput { block_hash } => {
            &&& r matches NodeAssumeValid::UserInput(h)
            &&& h@ == block_hash_or_zero(block_hash@)
        },
    }
}

/// Every root of `v` is 64 hex digits.
pub open spec fn all_roots_parse(v: AssumeUtreexoValue) -> bool {
    forall|i: int| 0 <= i < v.roots.len() ==> #[trigger] is_hex_hash(v.roots[i]@)
}

/// `r` holds the roots spelled by `roots`, one for one and in order.
pub open spec fn roots_decoded(roots: Seq<String>, r: Seq<NodeHash>) -> bool {
    &&& r.len() == roots.len()
    &&& forall|i: int|
        0 <= i < roots.len() ==> (#[trigger] r[i] matches NodeHash::Hash(b) && b@ == hex_bytes(
            roots[i]@,
        ))
}

/// `r` is what the assume-utreexo value `v` resolves to: the whole value is
/// dropped as soon as one root is not 64 hex digits, while a malformed block
/// hash becomes the all-zero hash.
pub open spec fn assume_utreexo_resolves_to(
    v: Option<AssumeUtreexoValue>,
    r: Option<NodeAssumeUtreexo>,
) -> bool {
    match v {
        None => r is None,
        Some(v) => if all_roots_parse(v) {
            &&& r matches Some(u)
            &&& u.block_hash@ == block_hash_or_zero(v.block_hash@)
            &&& u.height == v.height
            &&& u.leaves == v.leaves
            &&& roots_decoded(v.roots@, u.roots@)
        } else {
            r is None
        },
    }
}

/// Disabled and hard-coded assume-valid settings stay as they are; a
/// user-provided block hash always becomes `UserInput` of that hash, read
/// last digit pair first, or of thirty-two zero bytes when it is not 64 hex
/// digits. It never turns into another mode.
pub proof fn lemma_assume_valid_keeps_the_mode(arg: AssumeValidArg, r: NodeAssumeValid)
    requires
        assume_valid_resolves_to(arg, r),
    ensures
        arg is Disabled ==> r is Disabled,
        arg is Hardcoded ==> r is Hardcoded,
        arg matches AssumeValidArg::UserInput { block_hash } ==> {
            &&& r matches NodeAssumeValid::UserInput(h)
            &&& is_hex_hash(block_hash@) ==> forall|i: int|
                0 <= i < 32 ==> #[trigger] h@[i] == (hex_digit_value(block_hash@[62 - 2 * i]) * 16
                    + hex_digit_value(block_hash@[63 - 2 * i])) as u8
            &&& !is_hex_hash(block_hash@) ==> forall|i: int| 0 <= i < 32 ==> #[trigger] h@[i] == 0
        },
{
    if let AssumeValidArg::UserInput { block_hash } = arg {
        lemma_block_hash_read_in_display_order(block_hash@);
    }
}

/// Decoded roots come one for one and in the order they were written: root
/// `i` is the hash whose byte `k` is spelled by digits `2k` and `2k + 1` of
/// the `i`-th string.
pub proof fn lemma_roots_kept_in_order(roots: Seq<String>, r: Seq<NodeHash>)
    requires
        roots_decoded(roots, r),
    ensures
        r.len() == roots.len(),
        forall|i: int|
            0 <= i < roots.len() ==> (#[trigger] r[i] matches NodeHash::Hash(b) && forall|k: int|
                0 <= k < 32 ==> #[trigger] b@[k] == (hex_digit_value(roots[i]@[2 * k]) * 16
                    + hex_digit_value(roots[i]@[2 * k + 1])) as u8),
{
    assert forall|i: int| 0 <= i < roots.len() implies (#[trigger] r[i] matches NodeHash::Hash(b)
        && forall|k: int|
        0 <= k < 32 ==> #[trigger] b@[k] == (hex_digit_value(roots[i]@[2 * k]) * 16
            + hex_digit_value(roots[i]@[2 * k + 1])) as u8) by {
        lemma_root_read_in_written_order(roots[i]@);
    }
}

/// No assume-utreexo value given, none resolved.
pub proof fn lemma_no_assume_utreexo_stays_none(r: Option<NodeAssumeUtreexo>)
    requires
        assume_utreexo_resolves_to(None, r),
    ensures
        r is None,
{
}

/// A given assume-utreexo value is kept exactly when every root is 64 hex
/// digits; when kept, height and leaf count are unchanged, every root is
/// decoded in place (same count, same order), and the block hash is read
/// last digit pair first, or is all zeros when malformed.
pub proof fn lemma_assume_utreexo_all_or_nothing(
    v: AssumeUtreexoValue,
    r: Option<NodeAssumeUtreexo>,
)
    requires
        assume_utreexo_resolves_to(Some(v), r),
    ensures
        r is Some <==> (forall|i: int| 0 <= i < v.roots.len() ==> #[trigger] is_hex_hash(v.roots[i]@)),
        r matches Some(u) ==> {
            &&& u.height == v.height
            &&& u.leaves == v.leaves
            &&& u.roots.len() == v.roots.len()
            &&& forall|i: int|
                0 <= i < v.roots.len() ==> (#[trigger] u.roots@[i] matches NodeHash::Hash(b)
                    && forall|k: int|
                    0 <= k < 32 ==> #[trigger] b@[k] == (hex_digit_value(v.roots[i]@[2 * k]) * 16
                        + hex_digit_value(v.roots[i]@[2 * k + 1])) as u8)
            &&& is_hex_hash(v.block_hash@) ==> forall|i: int|
                0 <= i < 32 ==> #[trigger] u.block_hash@[i] == (hex_digit_value(
                    v.block_hash@[62 - 2 * i],
                ) * 16 + hex_digit_value(v.block_hash@[63 - 2 * i])) as u8
            &&& !is_hex_hash(v.block_hash@) ==> forall|i: int|
                0 <= i < 32 ==> #[trigger] u.block_hash@[i] == 0
        },
{
    lemma_block_hash_read_in_display_order(v.block_hash@);
    if let Some(u) = r {
        lemma_roots_kept_in_order(v.roots@, u.roots@);
    }
}

/// Resolves the assume-valid setting, reading a user-provided block hash.
pub fn resolve_assume_valid(arg: AssumeValidArg) -> (r: NodeAssumeValid)
    ensures
        assume_valid_resolves_to(arg, r),
{
    match arg {
        AssumeValidArg::Disabled => NodeAssumeValid::Disabled,
        AssumeValidArg::Hardcoded => NodeAssumeValid::Hardcoded,
        AssumeValidArg::UserInput { block_hash } => {
            NodeAssumeValid::UserInput(parse_block_hash_or_zero(block_hash.as_str()))
        },
    }
}

/// Decodes every root, or gives `None` as soon as one is not 64 hex digits.
pub fn decode_roots(roots: &Vec<String>) -> (r: Option<Vec<NodeHash>>)
    ensures
        r is Some <==> (forall|i: int| 0 <= i < roots.len() ==> #[trigger] is_hex_hash(roots[i]@)),
        r matches Some(hashes) ==> roots_decoded(roots@, hashes@),
{
    let mut hashes: Vec<NodeHash> = Vec::new();
    let n: usize = roots.len();
    for i in 0..n
        invariant
            n == roots.len(),
            hashes.len() == i,
            forall|j: int| 0 <= j < i ==> #[trigger] is_hex_hash(roots[j]@),
            forall|j: int|
                0 <= j < i ==> (#[trigger] hashes@[j] matches NodeHash::Hash(b) && b@ == hex_bytes(
                    roots[j]@,
                )),
    {
        match parse_node_hash(roots[i].as_str()) {
            Some(h) => {
                hashes.push(h);
            },
            None => {
                return None;
            },
        }
    }
    Some(hashes)
}

/// Resolves the assume-utreexo value: its block hash falls back to all
/// zeros, and the whole value is dropped if any root fails to decode.
pub fn resolve_assume_utreexo(v: Option<AssumeUtreexoValue>) -> (r: Option<NodeAssumeUtreexo>)
    ensures
        assume_utreexo_resolves_to(v, r),
{
    match v {
        None => None,
        Some(v) => {
            let block_hash = parse_block_hash_or_zero(v.block_hash.as_str());
            match decode_roots(&v.roots) {
                None => None,
                Some(roots) => Some(
                    NodeAssumeUtreexo { block_hash, height: v.height, roots, leaves: v.leaves },
                ),
            }
        },
    }
}

/// Configuration for the Floresta daemon.
#[derive(Clone, Debug)]
pub struct Config {
    /// Path to the data directory. Must be readable and writable.
    pub datadir: String,
    /// The Bitcoin network to run on.
    pub network: Network,
    /// Disable DNS seed nodes for peer discovery.
    pub disable_dns_seeds: bool,
    /// Which blocks are assumed to have valid scripts.
    pub assume_valid: AssumeValidArg,
    /// SLIP-132-encoded extended public keys to watch.
    pub wallet_xpub: Option<Vec<String>>,
    /// Output descriptors to watch.
    pub wallet_descriptor: Option<Vec<String>>,
    /// Path to a TOML configuration file.
    pub config_file: Option<String>,
    /// SOCKS5 proxy for outgoing connections.
    pub proxy: Option<String>,
    /// Whether to build compact block filters.
    pub cfilters: bool,
    /// Block height to start downloading compact filters from.
    pub filters_start_height: Option<i32>,
    /// ZMQ server address (requires zmq-server feature).
    pub zmq_address: Option<String>,
    /// Nodes to connect to exclusively.
    pub connect: Vec<String>,
    /// JSON-RPC server address (requires json-rpc feature).
    pub json_rpc_address: Option<String>,
    /// Whether to write logs to stdout.
    pub log_to_stdout: bool,
    /// Whether to write logs to a file.
    pub log_to_file: bool,
    /// Enable assume-utreexo mode.
    pub assume_utreexo: bool,
    /// Enable debug logging.
    pub debug: bool,
    /// User agent string advertised to peers.
    pub user_agent: String,
    /// Custom Utreexo accumulator state for assume-utreexo.
    pub assumeutreexo_value: Option<AssumeUtreexoValue>,
    /// Electrum server address.
    pub electrum_address: Option<String>,
    /// Whether to enable the Electrum TLS server.
    pub enable_electrum_tls: bool,
    /// Electrum TLS server address.
    pub electrum_address_tls: Option<String>,
    /// Path to the TLS private key file.
    pub tls_key_path: Option<String>,
    /// Path to the TLS certificate file.
    pub tls_cert_path: Option<String>,
    /// Whether to generate a self-signed TLS certificate.
    pub generate_cert: bool,
    /// Whether to allow v1 transport fallback.
    pub allow_v1_fallback: bool,
    /// Whether to backfill skipped blocks.
    pub backfill: bool,
}

/// The settings the node itself is started with: those of [`Config`] with
/// every hash decoded.
#[derive(Clone, Debug)]
pub struct NodeConfig {
    /// The Bitcoin network to run on.
    pub network: Network,
    /// Path to the data directory.
    pub datadir: String,
    /// Disable DNS seed nodes for peer discovery.
    pub disable_dns_seeds: bool,
    /// SLIP-132-encoded extended public keys to watch.
    pub wallet_xpub: Option<Vec<String>>,
    /// Output descriptors to watch.
    pub wallet_descriptor: Option<Vec<String>>,
    /// Path to a TOML configuration file.
    pub config_file: Option<String>,
    /// SOCKS5 proxy for outgoing connections.
    pub proxy: Option<String>,
    /// Whether to build compact block filters.
    pub cfilters: bool,
    /// Block height to start downloading compact filters from.
    pub filters_start_height: Option<i32>,
    /// ZMQ server address; a node built without ZMQ support ignores it.
    pub zmq_address: Option<String>,
    /// Nodes to connect to exclusively.
    pub connect: Vec<String>,
    /// JSON-RPC server address.
    pub json_rpc_address: Option<String>,
    /// Whether to write logs to stdout.
    pub log_to_stdout: bool,
    /// Whether to write logs to a file.
    pub log_to_file: bool,
    /// Enable assume-utreexo mode.
    pub assume_utreexo: bool,
    /// Enable debug logging.
    pub debug: bool,
    /// User agent string advertised to peers.
    pub user_agent: String,
    /// Electrum server address.
    pub electrum_address: Option<String>,
    /// Whether to enable the Electrum TLS server.
    pub enable_electrum_tls: bool,
    /// Electrum TLS server address.
    pub electrum_address_tls: Option<String>,
    /// Path to the TLS private key file.
    pub tls_key_path: Option<String>,
    /// Path to the TLS certificate file.
    pub tls_cert_path: Option<String>,
    /// Whether to generate a self-signed TLS certificate.
    pub generate_cert: bool,
    /// Whether to allow v1 transport fallback.
    pub allow_v1_fallback: bool,
    /// Whether to backfill skipped blocks.
    pub backfill: bool,
    /// Which blocks are assumed to have valid scripts.
    pub assume_valid: NodeAssumeValid,
    /// Custom Utreexo accumulator state, if one was given and all its roots decode.
    pub assumeutreexo_value: Option<NodeAssumeUtreexo>,
}

/// Every plain setting of `c` reaches `r` unchanged.
pub open spec fn settings_carried_over(c: Config, r: NodeConfig) -> bool {
    &&& r.network == c.network
    &&& r.datadir == c.datadir
    &&& r.disable_dns_seeds == c.disable_dns_seeds
    &&& r.wallet_xpub == c.wallet_xpub
    &&& r.wallet_descriptor == c.wallet_descriptor
    &&& r.config_file == c.config_file
    &&& r.proxy == c.proxy
    &&& r.cfilters == c.cfilters
    &&& r.filters_start_height == c.filters_start_height
    &&& r.zmq_address == c.zmq_address
    &&& r.connect == c.connect
    &&& r.json_rpc_address == c.json_rpc_address
    &&& r.log_to_stdout == c.log_to_stdout
    &&& r.log_to_file == c.log_to_file
    &&& r.assume_utreexo == c.assume_utreexo
    &&& r.debug == c.debug
    &&& r.user_agent == c.user_agent
    &&& r.electrum_address == c.electrum_address
    &&& r.enable_electrum_tls == c.enable_electrum_tls
    &&& r.electrum_address_tls == c.electrum_address_tls
    &&& r.tls_key_path == c.tls_key_path
    &&& r.tls_cert_path == c.tls_cert_path
    &&& r.generate_cert == c.generate_cert
    &&& r.allow_v1_fallback == c.allow_v1_fallback
    &&& r.backfill == c.backfill
}

/// Every plain setting keeps its value under its own name.
pub proof fn lemma_node_config_keeps_each_setting(c: Config, r: NodeConfig)
    requires
        settings_carried_over(c, r),
    ensures
        r.network == c.network,
        r.datadir == c.datadir,
        r.disable_dns_seeds == c.disable_dns_seeds,
        r.wallet_xpub == c.wallet_xpub,
        r.wallet_descriptor == c.wallet_descriptor,
        r.config_file == c.config_file,
        r.proxy == c.proxy,
        r.cfilters == c.cfilters,
        r.filters_start_height == c.filters_start_height,
        r.zmq_address == c.zmq_address,
        r.connect == c.connect,
        r.json_rpc_address == c.json_rpc_address,
        r.log_to_stdout == c.log_to_stdout,
        r.log_to_file == c.log_to_file,
        r.assume_utreexo == c.assume_utreexo,
        r.debug == c.debug,
        r.user_agent == c.user_agent,
        r.electrum_address == c.electrum_address,
        r.enable_electrum_tls == c.enable_electrum_tls,
        r.electrum_address_tls == c.electrum_address_tls,
        r.tls_key_path == c.tls_key_path,
        r.tls_cert_path == c.tls_cert_path,
        r.generate_cert == c.generate_cert,
        r.allow_v1_fallback == c.allow_v1_fallback,
        r.backfill == c.backfill,
{
}

impl Config {
    /// The settings the node is started with: every plain setting unchanged,
    /// the assume-valid hash and the assume-utreexo value decoded.
    pub fn into_node_config(self) -> (r: NodeConfig)
        ensures
            settings_carried_over(self, r),
            r.network == self.network,
            r.datadir == self.datadir,
            r.disable_dns_seeds == self.disable_dns_seeds,
            r.cfilters == self.cfilters,
            r.log_to_stdout == self.log_to_stdout,
            r.log_to_file == self.log_to_file,
            r.assume_utreexo == self.assume_utreexo,
            r.debug == self.debug,
            r.enable_electrum_tls == self.enable_electrum_tls,
            r.generate_cert == self.generate_cert,
            r.allow_v1_fallback == self.allow_v1_fallback,
            r.backfill == self.backfill,
            assume_valid_resolves_to(self.assume_valid, r.assume_valid),
            assume_utreexo_resolves_to(self.assumeutreexo_value, r.assumeutreexo_value),
    {
        let assume_valid = resolve_assume_valid(self.assume_valid);
        let assumeutreexo_value = resolve_assume_utreexo(self.assumeutreexo_value);
        NodeConfig {
            network: self.network,
            datadir: self.datadir,
            disable_dns_seeds: self.disable_dns_seeds,
            wallet_xpub: self.wallet_xpub,
            wallet_descriptor: self.wallet_descriptor,
            config_file: self.config_file,
            proxy: self.proxy,
            cfilters: self.cfilters,
            filters_start_height: self.filters_start_height,
            zmq_address: self.zmq_address,
            connect: self.connect,
            json_rpc_address: self.json_rpc_address,
            log_to_stdout: self.log_to_stdout,
            log_to_file: self.log_to_file,
            assume_utreexo: self.assume_utreexo,
            debug: self.debug,
            user_agent: self.user_agent,
            electrum_address: self.electrum_address,
            enable_electrum_tls: self.enable_electrum_tls,
            electrum_address_tls: self.electrum_address_tls,
            tls_key_path: self.tls_key_path,
            tls_cert_path: self.tls_cert_path,
            generate_cert: self.generate_cert,
            allow_v1_fallback: self.allow_v1_fallback,
            backfill: self.backfill,
            assume_valid,
            assumeutreexo_value,
        }
    }
}

} // verus!
