//! The node's configuration: where its files go, what it listens on, whom it
//! dials first, and the parameters of its peer-to-peer protocols.

use vstd::prelude::*;
use vstd::string::*;

use crate::address::{
    clone_multiaddrs, dial_addresses, ip_component, multiaddr_components, stripped_components,
    tcp_component, tcp_listen_multiaddr, IpAddress,
};
use crate::gossip::{
    default_gossipsub_config, is_default_gossipsub_config, is_libp2p_default, GossipsubSettings,
};
use crate::key::{create_peer_id, is_secret_key, secp256k1_peer_id, NetworkKey};
use crate::node::BEHAVIOUR_NETWORK_NAME;

verus! {

/// Names of the default directories.
pub const DEFAULT_ROOT_DIR: &'static str = ".grngrid";
pub const DEFAULT_NETWORK_DIR: &'static str = "network";
pub const DEFAULT_VALIDATOR_DIR: &'static str = "validators";
pub const DEFAULT_SECRET_DIR: &'static str = "secrets";
pub const DEFAULT_WALLET_DIR: &'static str = "wallets";
pub const DEFAULT_HARDCODED_NETWORK: &'static str = "localnet";

/// Name of the file, in the network directory, that holds the network key.
pub const NETWORK_KEY_FILENAME: &'static str = "key";

/// Gossip topics of the node.
pub const NEW_TX_GOSSIP_TOPIC: &'static str = "new_tx";
pub const NEW_BLOCK_GOSSIP_TOPIC: &'static str = "new_block";
pub const CON_VOTE_GOSSIP_TOPIC: &'static str = "consensus_vote";

/// Default TCP port of libp2p, and UDP port of discovery.
pub const DEFAULT_LIBP2P_PORT: u16 = 9000;
pub const DEFAULT_DISCOVERY_PORT: u16 = 9000;

/// Timeout of requests and keep-alive of idle connections, in seconds.
pub const REQ_RES_TIMEOUT_SECS: u64 = 20;

/// A path, as its bytes, with a relative part appended, as `PathBuf::push`
/// does it: a `/` goes between the two unless the path is empty or already
/// ends with one.
pub open spec fn path_join(base: Seq<u8>, part: Seq<u8>) -> Seq<u8> {
    if base.len() == 0 || base.last() == 0x2fu8 {
        base + part
    } else {
        base + seq![0x2fu8] + part
    }
}

/// Appending keeps the path whole and puts the part at the end: the result
/// starts with the whole path and ends with the whole part, and between them
/// lies a single `/` exactly when the path is not empty and does not already
/// end with one.
pub proof fn path_join_keeps_both(base: Seq<u8>, part: Seq<u8>)
    ensures
        path_join(base, part).len() == base.len() + part.len() + if base.len() == 0
            || base[base.len() - 1] == 0x2fu8 {
            0int
        } else {
            1int
        },
        path_join(base, part).subrange(0, base.len() as int) == base,
        path_join(base, part).subrange(
            path_join(base, part).len() - part.len(),
            path_join(base, part).len() as int,
        ) == part,
        base.len() > 0 && base[base.len() - 1] != 0x2fu8 ==> path_join(base, part)[base.len() as int]
            == 0x2fu8,
        base.len() == 0 || base[base.len() - 1] == 0x2fu8 ==> path_join(base, part) == base + part,
        base.len() > 0 && base[base.len() - 1] != 0x2fu8 ==> path_join(base, part) == base + seq![
            0x2fu8,
        ] + part,
{
    let joined = path_join(base, part);
    assert(joined.subrange(0, base.len() as int) =~= base);
    assert(joined.subrange(joined.len() - part.len(), joined.len() as int) =~= part);
}

/// The default network directory lies under the home directory, or under `.`
/// without one: it starts with that directory, a `/` follows unless the
/// directory is empty or ends with one, and it ends with
/// `.grngrid/localnet/network`.
pub proof fn network_dir_lies_under_home(home: Option<Seq<u8>>)
    ensures
        ({
            let base = match home {
                Some(h) => h,
                None => seq![0x2eu8],
            };
            let tail = DEFAULT_ROOT_DIR.spec_bytes() + seq![0x2fu8]
                + DEFAULT_HARDCODED_NETWORK.spec_bytes() + seq![0x2fu8]
                + DEFAULT_NETWORK_DIR.spec_bytes();
            &&& default_network_dir(home).subrange(0, base.len() as int) == base
            &&& default_network_dir(home) == (if base.len() == 0 || base[base.len() - 1] == 0x2fu8 {
                base + tail
            } else {
                base + seq![0x2fu8] + tail
            })
        }),
{
    reveal_strlit(".grngrid");
    reveal_strlit("localnet");
    reveal_strlit("network");
    let base = match home {
        Some(h) => h,
        None => seq![0x2eu8],
    };
    let root = DEFAULT_ROOT_DIR.spec_bytes();
    let net = DEFAULT_HARDCODED_NETWORK.spec_bytes();
    let dir = DEFAULT_NETWORK_DIR.spec_bytes();
    assert(root.len() > 0 && root.last() != 0x2fu8) by {
        assert(vstd::utf8::is_ascii_chars(DEFAULT_ROOT_DIR@));
        vstd::utf8::is_ascii_chars_encode_utf8(DEFAULT_ROOT_DIR@);
        assert(DEFAULT_ROOT_DIR@[7] == 'd');
    }
    assert(net.len() > 0 && net.last() != 0x2fu8) by {
        assert(vstd::utf8::is_ascii_chars(DEFAULT_HARDCODED_NETWORK@));
        vstd::utf8::is_ascii_chars_encode_utf8(DEFAULT_HARDCODED_NETWORK@);
        assert(DEFAULT_HARDCODED_NETWORK@[7] == 't');
    }
    path_join_keeps_both(base, root);
    let tail = root + seq![0x2fu8] + net + seq![0x2fu8] + dir;
    let first = path_join(base, root);
    if base.len() == 0 || base[base.len() - 1] == 0x2fu8 {
        assert(first == base + root);
        assert(first.last() == root.last());
        assert(default_network_dir(home) =~= base + tail);
    } else {
        assert(first == base + seq![0x2fu8] + root);
        assert(first.last() == root.last());
        assert(default_network_dir(home) =~= base + seq![0x2fu8] + tail);
    }
}

/// `base` with the relative path `part` appended (paths as bytes).
pub fn join_path(base: &[u8], part: &[u8]) -> (path: Vec<u8>)
    ensures
        path@ == path_join(base@, part@),
{
    let mut path = vstd::slice::slice_to_vec(base);
    let n = base.len();
    if !(n == 0 || base[n - 1] == 0x2fu8) {
        path.push(0x2fu8);
    }
    let ghost before = path@;
    path.extend_from_slice(part);
    assert(path@ =~= before + part@);
    path
}

/// The default network directory: `.grngrid/localnet/network` under the home
/// directory, or under `.` when there is none.
pub open spec fn default_network_dir(home: Option<Seq<u8>>) -> Seq<u8> {
    let base = match home {
        Some(h) => h,
        None => seq![0x2eu8],
    };
    path_join(
        path_join(
            path_join(base, DEFAULT_ROOT_DIR.spec_bytes()),
            DEFAULT_HARDCODED_NETWORK.spec_bytes(),
        ),
        DEFAULT_NETWORK_DIR.spec_bytes(),
    )
}

/// `dirs::home_dir`, as the bytes of the path (`OsString::into_encoded_bytes`).
/// It reads the environment: nothing is stated of it.
#[verifier::external_body]
fn home_directory() -> Option<Vec<u8>> {
    match dirs::home_dir() {
        Some(path) => Some(path.into_os_string().into_encoded_bytes()),
        None => None,
    }
}

/// The default network directory, for the home directory `home`.
pub fn network_dir_for_home(home: Option<Vec<u8>>) -> (dir: Vec<u8>)
    ensures
        dir@ == default_network_dir(
            match home {
                Some(h) => Some(h@),
                None => None,
            },
        ),
{
    let base = match home {
        Some(h) => h,
        None => {
            let mut current: Vec<u8> = Vec::new();
            current.push(0x2eu8);
            current
        },
    };
    let root = join_path(base.as_slice(), DEFAULT_ROOT_DIR.as_bytes());
    let network = join_path(root.as_slice(), DEFAULT_HARDCODED_NETWORK.as_bytes());
    join_path(network.as_slice(), DEFAULT_NETWORK_DIR.as_bytes())
}

/// Network configuration of the node.
pub struct Config {
    /// Data directory where the node's key file is stored (the bytes of its
    /// path).
    pub network_dir: Vec<u8>,
    /// IP address to listen on.
    pub listen_address: IpAddress,
    /// libp2p nodes to connect to first.
    pub libp2p_nodes: Vec<libp2p::Multiaddr>,
    /// The TCP port that libp2p listens on.
    pub libp2p_port: u16,
    /// UDP port that discovery listens on.
    pub discovery_port: u16,
    /// Gossipsub parameters.
    pub gs_config: GossipsubSettings,
}

impl Config {
    /// The default configuration, with the network directory under `home`:
    /// listening on `0.0.0.0`, port 9000 for libp2p and discovery, no nodes
    /// to dial, libp2p's default gossipsub configuration.
    pub fn default_for_home(home: Option<Vec<u8>>) -> (config: Config)
        ensures
            config.network_dir@ == default_network_dir(
                match home {
                    Some(h) => Some(h@),
                    None => None,
                },
            ),
            config.listen_address == IpAddress::V4([0u8, 0u8, 0u8, 0u8]),
            config.libp2p_nodes.len() == 0,
            config.libp2p_port == 9000,
            config.discovery_port == 9000,
            is_libp2p_default(config.gs_config),
    {
        Config {
            network_dir: network_dir_for_home(home),
            listen_address: IpAddress::V4([0, 0, 0, 0]),
            libp2p_nodes: Vec::new(),
            libp2p_port: DEFAULT_LIBP2P_PORT,
            discovery_port: DEFAULT_DISCOVERY_PORT,
            gs_config: GossipsubSettings::libp2p_defaults(),
        }
    }

    /// The file that holds the network key: `key` in the network directory.
    pub fn network_key_file_path(&self) -> (path: Vec<u8>)
        ensures
            path@ == path_join(self.network_dir@, NETWORK_KEY_FILENAME.spec_bytes()),
    {
        join_path(self.network_dir.as_slice(), NETWORK_KEY_FILENAME.as_bytes())
    }

    /// The address libp2p listens on: `/ip4/<listen_address>/tcp/<libp2p_port>`.
    pub fn listen_multiaddr(&self) -> (addr: libp2p::Multiaddr)
        ensures
            multiaddr_components(addr) == seq![
                ip_component(self.listen_address),
                tcp_component(self.libp2p_port),
            ],
    {
        tcp_listen_multiaddr(&self.listen_address, self.libp2p_port)
    }

    /// The addresses to dial at start: the configured libp2p nodes, each
    /// without a trailing peer id, in order.
    pub fn boot_node_dial_addresses(&self) -> (dial: Vec<libp2p::Multiaddr>)
        ensures
            dial.len() == self.libp2p_nodes.len(),
            forall|i: int|
                0 <= i < dial.len() ==> multiaddr_components(#[trigger] dial[i])
                    == stripped_components(multiaddr_components(self.libp2p_nodes[i])),
    {
        dial_addresses(&self.libp2p_nodes)
    }
}

impl Default for Config {
    /// The default configuration, with the network directory under the
    /// user's home directory (or `.`).
    fn default() -> (config: Config)
        ensures
            exists|home: Option<Seq<u8>>| config.network_dir@ == default_network_dir(home),
            config.listen_address == IpAddress::V4([0u8, 0u8, 0u8, 0u8]),
            config.libp2p_nodes.len() == 0,
            config.libp2p_port == 9000,
            config.discovery_port == 9000,
            is_libp2p_default(config.gs_config),
    {
        let home = home_directory();
        let config = Config::default_for_home(home);
        assert(config.network_dir@ == default_network_dir(
            match home {
                Some(h) => Some(h@),
                None => None,
            },
        ));
        config
    }
}

/// Peer-to-peer configuration of the node's behaviour.
pub struct P2PConfig {
    pub local_key: NetworkKey,
    /// Name of the network.
    pub network_name: String,
    /// IP address for the swarm to listen on.
    pub address: IpAddress,
    /// The TCP port that the swarm listens on.
    pub tcp_port: u16,
    /// Maximum size of a block, in bytes.
    pub max_block_size: usize,
    // Discovery
    pub bootstrap_nodes: Vec<libp2p::Multiaddr>,
    pub enable_mdns: bool,
    pub max_peers_connected: usize,
    pub allow_private_addresses: bool,
    pub enable_random_walk: bool,
    pub connection_idle_timeout_secs: Option<u64>,
    // Peer info
    /// Seconds between identification requests on established connections,
    /// after the first one.
    pub identify_interval_secs: Option<u64>,
    /// Seconds between the last successful ping and the next one.
    pub info_interval_secs: Option<u64>,
    // Gossipsub
    pub gossipsub_config: GossipsubSettings,
    pub topics: Vec<String>,
    // Requests and responses
    /// Timeout of inbound and outbound requests, in seconds.
    pub set_request_timeout_secs: u64,
    /// Keep-alive of idle connections, in seconds.
    pub set_connection_keep_alive_secs: u64,
    /// Prometheus metrics are enabled.
    pub metrics: bool,
}

impl P2PConfig {
    /// The default configuration for the network `network_name`, with a key
    /// freshly drawn by the secp256k1 generator.
    pub fn default_with_network(network_name: &str) -> (config: P2PConfig)
        ensures
            is_secret_key(config.local_key@),
            config.local_key.was_generated(),
            config.network_name@ == network_name@,
            config.address == IpAddress::V4([0u8, 0u8, 0u8, 0u8]),
            config.tcp_port == 0,
            config.max_block_size == 100_000,
            config.bootstrap_nodes.len() == 0,
            config.enable_mdns,
            config.max_peers_connected == 50,
            config.allow_private_addresses,
            config.enable_random_walk,
            config.connection_idle_timeout_secs == Some(120u64),
            config.identify_interval_secs == Some(5u64),
            config.info_interval_secs == Some(3u64),
            is_default_gossipsub_config(config.gossipsub_config),
            config.topics.len() == 3,
            config.topics[0]@ == NEW_TX_GOSSIP_TOPIC@,
            config.topics[1]@ == NEW_BLOCK_GOSSIP_TOPIC@,
            config.topics[2]@ == CON_VOTE_GOSSIP_TOPIC@,
            config.set_request_timeout_secs == 20,
            config.set_connection_keep_alive_secs == 20,
            !config.metrics,
    {
        let mut topics: Vec<String> = Vec::new();
        topics.push(String::from_str(NEW_TX_GOSSIP_TOPIC));
        topics.push(String::from_str(NEW_BLOCK_GOSSIP_TOPIC));
        topics.push(String::from_str(CON_VOTE_GOSSIP_TOPIC));
        P2PConfig {
            local_key: NetworkKey::generate(),
            network_name: String::from_str(network_name),
            address: IpAddress::V4([0, 0, 0, 0]),
            tcp_port: 0,
            max_block_size: 100_000,
            bootstrap_nodes: Vec::new(),
            enable_mdns: true,
            max_peers_connected: 50,
            allow_private_addresses: true,
            enable_random_walk: true,
            connection_idle_timeout_secs: Some(120),
            identify_interval_secs: Some(5),
            info_interval_secs: Some(3),
            gossipsub_config: default_gossipsub_config(),
            topics,
            set_request_timeout_secs: REQ_RES_TIMEOUT_SECS,
            set_connection_keep_alive_secs: REQ_RES_TIMEOUT_SECS,
            metrics: false,
        }
    }
}

/// The settings of the node's discovery behaviour.
#[derive(Debug)]
pub struct DiscoverySettings {
    pub local_peer_id: libp2p::PeerId,
    pub network_name: String,
    pub enable_mdns: bool,
    /// Number of connected peers above which discovery stops.
    pub discovery_limit: usize,
    pub allow_private_addresses: bool,
    pub bootstrap_nodes: Vec<libp2p::Multiaddr>,
    pub enable_random_walk: bool,
    /// `None` leaves the discovery behaviour's own default.
    pub connection_idle_timeout_secs: Option<u64>,
}

/// The discovery settings that a peer-to-peer configuration asks for: its
/// network name, mDNS, private addresses, bootstrap nodes, random walk and
/// idle timeout as they are, and discovery stopping at its maximum of
/// connected peers.
pub fn discovery_settings(
    local_peer_id: libp2p::PeerId,
    p2p_config: &P2PConfig,
) -> (settings: DiscoverySettings)
    ensures
        settings.local_peer_id == local_peer_id,
        settings.network_name@ == p2p_config.network_name@,
        settings.enable_mdns == p2p_config.enable_mdns,
        settings.discovery_limit == p2p_config.max_peers_connected,
        settings.allow_private_addresses == p2p_config.allow_private_addresses,
        settings.bootstrap_nodes.len() == p2p_config.bootstrap_nodes.len(),
        forall|i: int|
            0 <= i < settings.bootstrap_nodes.len() ==> multiaddr_components(
                #[trigger] settings.bootstrap_nodes[i],
            ) == multiaddr_components(p2p_config.bootstrap_nodes[i]),
        settings.enable_random_walk == p2p_config.enable_random_walk,
        settings.connection_idle_timeout_secs == p2p_config.connection_idle_timeout_secs,
{
    DiscoverySettings {
        local_peer_id,
        network_name: p2p_config.network_name.clone(),
        enable_mdns: p2p_config.enable_mdns,
        discovery_limit: p2p_config.max_peers_connected,
        allow_private_addresses: p2p_config.allow_private_addresses,
        bootstrap_nodes: clone_multiaddrs(&p2p_config.bootstrap_nodes),
        enable_random_walk: p2p_config.enable_random_walk,
        connection_idle_timeout_secs: p2p_config.connection_idle_timeout_secs,
    }
}

/// The discovery settings of the node's behaviour: for the node's peer id,
/// from the default peer-to-peer configuration of the network
/// `GRN_network`, so mDNS and random walk on, private addresses allowed,
/// discovery stopping at 50 peers, no bootstrap node, and connections idle
/// for 120 seconds closed.
pub fn behaviour_discovery_settings(local_key: &NetworkKey) -> (settings: DiscoverySettings)
    ensures
        settings.local_peer_id == secp256k1_peer_id(local_key@),
        settings.network_name@ == BEHAVIOUR_NETWORK_NAME@,
        settings.enable_mdns,
        settings.discovery_limit == 50,
        settings.allow_private_addresses,
        settings.bootstrap_nodes.len() == 0,
        settings.enable_random_walk,
        settings.connection_idle_timeout_secs == Some(120u64),
{
    let p2p_config = P2PConfig::default_with_network(BEHAVIOUR_NETWORK_NAME);
    discovery_settings(create_peer_id(local_key), &p2p_config)
}

/// Limits on the number of connections; `None` is no limit.
pub struct ConnectionLimitSettings {
    pub max_pending_incoming: Option<u32>,
    pub max_pending_outgoing: Option<u32>,
    pub max_established_incoming: Option<u32>,
    pub max_established_outgoing: Option<u32>,
    pub max_established: Option<u32>,
    pub max_established_per_peer: Option<u32>,
}

/// The connection limits meant for the node: 5 pending incoming, 16 pending
/// outgoing, 50 established each way, 55 established in all, one per peer.
pub fn set_connection_limits() -> (limits: ConnectionLimitSettings)
    ensures
        limits.max_pending_incoming == Some(5u32),
        limits.max_pending_outgoing == Some(16u32),
        limits.max_established_incoming == Some(50u32),
        limits.max_established_outgoing == Some(50u32),
        limits.max_established == Some(55u32),
        limits.max_established_per_peer == Some(1u32),
{
    ConnectionLimitSettings {
        max_pending_incoming: Some(5),
        max_pending_outgoing: Some(16),
        max_established_incoming: Some(50),
        max_established_outgoing: Some(50),
        max_established: Some(55),
        max_established_per_peer: Some(1),
    }
}

} // verus!
