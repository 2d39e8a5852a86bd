use std::time::Duration;

use libp2p::{Multiaddr, PeerId};
use network::address::{
    add_node_from_text, dial_addresses, strip_peer_id, tcp_listen_multiaddr, IpAddress,
};
use network::config::{
    behaviour_discovery_settings, discovery_settings, join_path, network_dir_for_home,
    set_connection_limits, Config, P2PConfig,
};
use network::gossip::{
    behaviour_gossipsub, behaviour_gossipsub_settings, build_gossipsub_config,
    default_gossipsub_builder, default_gossipsub_config, message_id, GossipsubSettings,
    ValidationMode,
};
use network::key::{
    create_or_load_private_key, create_peer_id, generate_noise_config, NetworkKey, StoredKey,
};
use network::node::{handle_event, NodeAction, NodeEvent, CHAT_TOPIC};

fn addr(s: &str) -> Multiaddr {
    s.parse().unwrap()
}

fn hex32(s: &str) -> [u8; 32] {
    let mut out = [0u8; 32];
    for i in 0..32 {
        out[i] = u8::from_str_radix(&s[2 * i..2 * i + 2], 16).unwrap();
    }
    out
}

const ORDER_HEX: &str = "FFFFFFFFFFFFFFFFFFFFFFFFFFFFFFFEBAAEDCE6AF48A03BBFD25E8CD0364141";
const ORDER_MINUS_ONE_HEX: &str =
    "FFFFFFFFFFFFFFFFFFFFFFFFFFFFFFFEBAAEDCE6AF48A03BBFD25E8CD0364140";

// ---- multiaddresses ----

#[test]
fn strip_peer_id_removes_trailing_peer_id() {
    let peer = PeerId::random();
    let mut a = addr(&format!("/ip4/127.0.0.1/tcp/4001/p2p/{}", peer));
    strip_peer_id(&mut a);
    assert_eq!(a, addr("/ip4/127.0.0.1/tcp/4001"));
}

#[test]
fn strip_peer_id_keeps_address_without_peer_id() {
    let mut a = addr("/ip4/10.0.0.1/tcp/9000");
    strip_peer_id(&mut a);
    assert_eq!(a, addr("/ip4/10.0.0.1/tcp/9000"));
    let mut empty = Multiaddr::empty();
    strip_peer_id(&mut empty);
    assert!(empty.is_empty());
}

#[test]
fn strip_peer_id_removes_only_the_last_peer_id() {
    let p1 = PeerId::random();
    let p2 = PeerId::random();
    let mut a = addr(&format!("/p2p/{}/p2p/{}", p1, p2));
    strip_peer_id(&mut a);
    assert_eq!(a, addr(&format!("/p2p/{}", p1)));
    let mut b = addr(&format!("/p2p/{}/tcp/1", p1));
    strip_peer_id(&mut b);
    assert_eq!(b, addr(&format!("/p2p/{}/tcp/1", p1)));
}

#[test]
fn dial_addresses_strip_each_in_order() {
    let peer = PeerId::random();
    let nodes = vec![
        addr(&format!("/ip4/1.2.3.4/tcp/1/p2p/{}", peer)),
        addr("/dns4/example.com/tcp/2"),
        addr(&format!("/ip6/::1/tcp/3/p2p/{}", peer)),
    ];
    let dial = dial_addresses(&nodes);
    assert_eq!(
        dial,
        vec![addr("/ip4/1.2.3.4/tcp/1"), addr("/dns4/example.com/tcp/2"), addr("/ip6/::1/tcp/3")]
    );
    assert!(dial_addresses(&vec![]).is_empty());
}

#[test]
fn listen_multiaddr_is_ip_then_tcp() {
    let a = tcp_listen_multiaddr(&IpAddress::V4([192, 168, 1, 7]), 4001);
    assert_eq!(a, addr("/ip4/192.168.1.7/tcp/4001"));
    assert_eq!(a.to_vec(), vec![4, 192, 168, 1, 7, 6, 0x0f, 0xa1]);
    let mut v6 = [0u8; 16];
    v6[15] = 1;
    assert_eq!(tcp_listen_multiaddr(&IpAddress::V6(v6), 0), addr("/ip6/::1/tcp/0"));
}

// ---- configuration ----

#[test]
fn join_path_puts_one_separator() {
    assert_eq!(join_path(b"/home/u", b"x"), b"/home/u/x".to_vec());
    assert_eq!(join_path(b"/home/u/", b"x"), b"/home/u/x".to_vec());
    assert_eq!(join_path(b"/", b"x"), b"/x".to_vec());
    assert_eq!(join_path(b"", b"x"), b"x".to_vec());
}

#[test]
fn network_dir_under_home_or_current_dir() {
    assert_eq!(
        network_dir_for_home(Some(b"/home/alice".to_vec())),
        b"/home/alice/.grngrid/localnet/network".to_vec()
    );
    assert_eq!(network_dir_for_home(None), b"./.grngrid/localnet/network".to_vec());
    // a home directory that is not UTF-8 is kept byte for byte
    assert_eq!(
        network_dir_for_home(Some(vec![b'/', 0xff, 0xfe])),
        [&[b'/', 0xff, 0xfe][..], b"/.grngrid/localnet/network"].concat()
    );
}

#[test]
fn default_config_values() {
    let config = Config::default_for_home(Some(b"/home/bob".to_vec()));
    assert_eq!(config.network_dir, b"/home/bob/.grngrid/localnet/network".to_vec());
    assert!(matches!(config.listen_address, IpAddress::V4([0, 0, 0, 0])));
    assert!(config.libp2p_nodes.is_empty());
    assert_eq!(config.libp2p_port, 9000);
    assert_eq!(config.discovery_port, 9000);
    assert!(config.gs_config.mesh_n.is_none());
    assert_eq!(
        config.network_key_file_path(),
        b"/home/bob/.grngrid/localnet/network/key".to_vec()
    );
    assert_eq!(config.listen_multiaddr(), addr("/ip4/0.0.0.0/tcp/9000"));

    let config = Config::default();
    assert!(config.network_dir.ends_with(b".grngrid/localnet/network"));
    assert_eq!(config.libp2p_port, 9000);
}

#[test]
fn boot_node_dial_addresses_of_config() {
    let peer = PeerId::random();
    let mut config = Config::default_for_home(None);
    config.libp2p_nodes.push(addr(&format!("/ip4/8.8.8.8/tcp/9000/p2p/{}", peer)));
    assert_eq!(config.boot_node_dial_addresses(), vec![addr("/ip4/8.8.8.8/tcp/9000")]);
}

#[test]
fn p2p_config_defaults() {
    let c = P2PConfig::default_with_network("testnet");
    assert_eq!(c.network_name, "testnet");
    assert!(matches!(c.address, IpAddress::V4([0, 0, 0, 0])));
    assert_eq!(c.tcp_port, 0);
    assert_eq!(c.max_block_size, 100_000);
    assert!(c.bootstrap_nodes.is_empty());
    assert!(c.enable_mdns);
    assert_eq!(c.max_peers_connected, 50);
    assert!(c.allow_private_addresses);
    assert!(c.enable_random_walk);
    assert_eq!(c.connection_idle_timeout_secs, Some(120));
    assert_eq!(c.identify_interval_secs, Some(5));
    assert_eq!(c.info_interval_secs, Some(3));
    assert_eq!(c.topics, vec!["new_tx", "new_block", "consensus_vote"]);
    assert_eq!(c.set_request_timeout_secs, 20);
    assert_eq!(c.set_connection_keep_alive_secs, 20);
    assert!(!c.metrics);
    assert_eq!(c.gossipsub_config.mesh_n, Some(6));
    assert!(NetworkKey::from_bytes(c.local_key.to_bytes()).is_some());
}

#[test]
fn discovery_settings_follow_p2p_config() {
    let mut c = P2PConfig::default_with_network("disc");
    c.bootstrap_nodes.push(addr("/ip4/1.1.1.1/tcp/1"));
    c.connection_idle_timeout_secs = None;
    let peer = PeerId::random();
    let d = discovery_settings(peer, &c);
    assert_eq!(d.local_peer_id, peer);
    assert_eq!(d.network_name, "disc");
    assert!(d.enable_mdns);
    assert_eq!(d.discovery_limit, 50);
    assert!(d.allow_private_addresses);
    assert_eq!(d.bootstrap_nodes, vec![addr("/ip4/1.1.1.1/tcp/1")]);
    assert!(d.enable_random_walk);
    assert_eq!(d.connection_idle_timeout_secs, None);
}

#[test]
fn connection_limits_values() {
    let l = set_connection_limits();
    assert_eq!(l.max_pending_incoming, Some(5));
    assert_eq!(l.max_pending_outgoing, Some(16));
    assert_eq!(l.max_established_incoming, Some(50));
    assert_eq!(l.max_established_outgoing, Some(50));
    assert_eq!(l.max_established, Some(55));
    assert_eq!(l.max_established_per_peer, Some(1));
}

// ---- gossipsub ----

#[test]
fn message_id_is_sha256_of_data() {
    let id = message_id(b"abc");
    assert_eq!(id, hex32("BA7816BF8F01CFEA414140DE5DAE2223B00361A396177A9CB410FF61F20015AD").to_vec());
    let empty = message_id(b"");
    assert_eq!(
        empty,
        hex32("E3B0C44298FC1C149AFBF4C8996FB92427AE41E4649B934CA495991B7852B855").to_vec()
    );
    assert_eq!(message_id(b"same"), message_id(b"same"));
    assert_ne!(message_id(b"one"), message_id(b"two"));
}

#[test]
fn gossipsub_settings_values() {
    let b = default_gossipsub_builder();
    assert_eq!(b.protocol_id_prefix.as_deref(), Some("/meshsub/1.0.0"));
    assert!(b.content_addressed_ids && b.validate_messages);
    assert_eq!(b.mesh_n, None);
    let c = default_gossipsub_config();
    assert_eq!((c.mesh_n, c.mesh_n_low, c.mesh_n_high), (Some(6), Some(4), Some(12)));
    let s = behaviour_gossipsub_settings();
    assert_eq!(s.heartbeat_interval_secs, Some(10));
    assert!(s.support_floodsub);
    assert_eq!(s.validation_mode, Some(ValidationMode::Strict));
}

#[test]
fn gossipsub_configs_build() {
    let c = build_gossipsub_config(&default_gossipsub_config()).unwrap();
    assert_eq!(c.mesh_n(), 6);
    assert_eq!(c.mesh_n_low(), 4);
    assert_eq!(c.mesh_n_high(), 12);
    assert!(c.validate_messages());
    let b = build_gossipsub_config(&behaviour_gossipsub_settings()).unwrap();
    assert_eq!(b.heartbeat_interval(), std::time::Duration::from_secs(10));
    assert!(build_gossipsub_config(&GossipsubSettings::libp2p_defaults()).is_ok());
}

#[test]
fn gossipsub_config_refused() {
    let mut s = GossipsubSettings::libp2p_defaults();
    s.mesh_n_low = Some(7);
    assert!(build_gossipsub_config(&s).is_err());
    let mut s = GossipsubSettings::libp2p_defaults();
    s.protocol_id_prefix = Some("meshsub".to_string());
    assert!(build_gossipsub_config(&s).is_err());
}

#[test]
fn behaviour_gossipsub_is_subscribed_to_chat() {
    let key = NetworkKey::generate();
    let gossipsub = behaviour_gossipsub(&key).ok().unwrap();
    let chat = libp2p::gossipsub::TopicHash::from_raw("chat");
    assert_eq!(gossipsub.topics().cloned().collect::<Vec<_>>(), vec![chat]);
    assert_eq!(CHAT_TOPIC, "chat");
}

#[test]
fn behaviour_gossipsub_publishes_as_the_node() {
    let key = NetworkKey::generate();
    let mut gossipsub = behaviour_gossipsub(&key).ok().unwrap();
    // with no peer, publishing fails for want of peers, not for want of a key
    let r = gossipsub.publish(libp2p::gossipsub::IdentTopic::new("chat"), b"x".to_vec());
    assert!(matches!(r, Err(libp2p::gossipsub::PublishError::InsufficientPeers)));
}

#[test]
fn built_config_carries_the_settings() {
    let c = build_gossipsub_config(&behaviour_gossipsub_settings()).unwrap();
    assert_eq!(c.heartbeat_interval(), std::time::Duration::from_secs(10));
    assert!(c.support_floodsub());
    assert!(matches!(c.validation_mode(), libp2p::gossipsub::ValidationMode::Strict));
    assert_eq!((c.mesh_n(), c.mesh_n_low(), c.mesh_n_high()), (6, 5, 12));
    assert!(!c.validate_messages());
}

#[test]
fn built_config_ids_are_sha256_of_data() {
    let c = build_gossipsub_config(&default_gossipsub_config()).unwrap();
    let peer = PeerId::random();
    let topic = libp2p::gossipsub::TopicHash::from_raw("t");
    let m1 = libp2p::gossipsub::Message {
        source: Some(peer),
        data: b"abc".to_vec(),
        sequence_number: Some(1),
        topic: topic.clone(),
    };
    let m2 = libp2p::gossipsub::Message {
        source: None,
        data: b"abc".to_vec(),
        sequence_number: Some(99),
        topic,
    };
    let expected = libp2p::gossipsub::MessageId::from(message_id(b"abc"));
    assert_eq!(c.message_id(&m1), expected);
    assert_eq!(c.message_id(&m2), expected);
}

#[test]
fn discovery_settings_of_the_behaviour() {
    let key = NetworkKey::generate();
    let d = behaviour_discovery_settings(&key);
    assert_eq!(d.local_peer_id, create_peer_id(&key));
    assert_eq!(d.network_name, "GRN_network");
    assert!(d.enable_mdns && d.allow_private_addresses && d.enable_random_walk);
    assert_eq!(d.discovery_limit, 50);
    assert!(d.bootstrap_nodes.is_empty());
    assert_eq!(d.connection_idle_timeout_secs, Some(120));
}

// ---- keys ----

#[test]
fn secret_key_bounds() {
    assert!(NetworkKey::from_bytes([0u8; 32]).is_none());
    assert!(NetworkKey::from_bytes([0xffu8; 32]).is_none());
    assert!(NetworkKey::from_bytes(hex32(ORDER_HEX)).is_none());
    let top = NetworkKey::from_bytes(hex32(ORDER_MINUS_ONE_HEX)).unwrap();
    assert_eq!(top.to_bytes(), hex32(ORDER_MINUS_ONE_HEX));
    let mut one = [0u8; 32];
    one[31] = 1;
    assert_eq!(NetworkKey::from_bytes(one).unwrap().to_bytes(), one);
}

#[test]
fn stored_valid_key_is_loaded() {
    let mut bytes = [0u8; 32];
    bytes[0] = 0x11;
    bytes[31] = 0x22;
    let choice = create_or_load_private_key(StoredKey::Read(bytes));
    assert!(!choice.generated);
    assert_eq!(choice.key.to_bytes(), bytes);
}

#[test]
fn missing_or_bad_key_is_generated() {
    for stored in [StoredKey::Unavailable, StoredKey::Unreadable, StoredKey::Read([0u8; 32])] {
        let choice = create_or_load_private_key(stored);
        assert!(choice.generated);
        assert!(NetworkKey::from_bytes(choice.key.to_bytes()).is_some());
    }
}

#[test]
fn saved_key_loads_back_the_same() {
    let first = create_or_load_private_key(StoredKey::Unavailable);
    assert!(first.generated);
    let saved = first.key.to_bytes();
    let second = create_or_load_private_key(StoredKey::Read(saved));
    assert!(!second.generated);
    assert_eq!(second.key.to_bytes(), saved);
    assert_eq!(create_peer_id(&first.key), create_peer_id(&second.key));
}

#[test]
fn peer_id_is_that_of_the_key() {
    let mut bytes = [0u8; 32];
    bytes[31] = 7;
    let key = NetworkKey::from_bytes(bytes).unwrap();
    let secret = libp2p::identity::secp256k1::SecretKey::try_from_bytes(bytes).unwrap();
    let keypair: libp2p::identity::Keypair =
        libp2p::identity::secp256k1::Keypair::from(secret).into();
    assert_eq!(create_peer_id(&key), keypair.public().to_peer_id());
    assert_eq!(key.to_keypair().public(), keypair.public());
    let mut other = bytes;
    other[31] = 8;
    assert_ne!(create_peer_id(&key), create_peer_id(&NetworkKey::from_bytes(other).unwrap()));
}

#[test]
fn noise_config_for_key() {
    assert!(generate_noise_config(&NetworkKey::generate()).is_ok());
}

// ---- event loop decisions ----

#[test]
fn input_line_is_published_on_chat() {
    match handle_event(NodeEvent::InputLine("hello".to_string())) {
        NodeAction::Publish { topic, data } => {
            assert_eq!(topic, "chat");
            assert_eq!(data, b"hello".to_vec());
        }
        _ => panic!("expected a publish"),
    }
}

#[test]
fn discovered_addresses_go_to_peer_info() {
    let peer = PeerId::random();
    let addresses = vec![addr("/ip4/1.2.3.4/tcp/1"), addr("/ip4/5.6.7.8/tcp/2")];
    match handle_event(NodeEvent::DiscoveryConnected { peer_id: peer, addresses: addresses.clone() })
    {
        NodeAction::AddAddressesToPeerInfo { peer_id, addresses: a } => {
            assert_eq!(peer_id, peer);
            assert_eq!(a, addresses);
        }
        _ => panic!("expected addresses for peer info"),
    }
}

#[test]
fn identified_addresses_go_to_discovery() {
    let peer = PeerId::random();
    let addresses = vec![addr("/ip4/9.9.9.9/tcp/9")];
    match handle_event(NodeEvent::PeerIdentified { peer_id: peer, addresses: addresses.clone() }) {
        NodeAction::AddAddressesToDiscovery { peer_id, addresses: a } => {
            assert_eq!(peer_id, peer);
            assert_eq!(a, addresses);
        }
        _ => panic!("expected addresses for discovery"),
    }
}

#[test]
fn other_events_are_only_logged() {
    let peer = PeerId::random();
    for event in [
        NodeEvent::DiscoveryDisconnected { peer_id: peer },
        NodeEvent::DiscoveryOther,
        NodeEvent::Gossipsub,
        NodeEvent::PeerInfoUpdated { peer_id: peer },
        NodeEvent::Other,
    ] {
        assert!(matches!(handle_event(event), NodeAction::Nothing));
    }
}

#[test]
fn unset_gossipsub_parameters_keep_libp2p_defaults() {
    for settings in [behaviour_gossipsub_settings(), default_gossipsub_builder()] {
        let c = build_gossipsub_config(&settings).unwrap();
        assert_eq!((c.history_length(), c.history_gossip()), (5, 3));
        assert_eq!((c.retain_scores(), c.gossip_lazy()), (4, 6));
        assert_eq!(c.heartbeat_initial_delay(), Duration::from_secs(5));
        assert_eq!(c.fanout_ttl(), Duration::from_secs(60));
        assert_eq!(c.check_explicit_peers_ticks(), 300);
        assert_eq!(c.max_transmit_size(), 65536);
        assert_eq!(c.idle_timeout(), Duration::from_secs(120));
        assert_eq!(c.duplicate_cache_time(), Duration::from_secs(60));
        assert!(!c.allow_self_origin() && !c.do_px());
        assert_eq!(c.prune_peers(), 0);
        assert_eq!(c.prune_backoff(), Duration::from_secs(60));
        assert_eq!(c.unsubscribe_backoff(), Duration::from_secs(10));
        assert_eq!(c.backoff_slack(), 1);
        assert!(c.flood_publish());
        assert_eq!(c.graft_flood_threshold(), Duration::from_secs(10));
        assert_eq!(c.mesh_outbound_min(), 2);
        assert_eq!((c.opportunistic_graft_ticks(), c.opportunistic_graft_peers()), (60, 2));
        assert_eq!(c.gossip_retransimission(), 3);
        assert_eq!(c.max_messages_per_rpc(), None);
        assert_eq!((c.max_ihave_length(), c.max_ihave_messages()), (5000, 10));
        assert_eq!(c.iwant_followup_time(), Duration::from_secs(3));
        assert_eq!(c.published_message_ids_cache_time(), Duration::from_secs(10));
    }
    let b = build_gossipsub_config(&default_gossipsub_builder()).unwrap();
    assert_eq!((b.mesh_n(), b.mesh_n_low(), b.mesh_n_high()), (6, 5, 12));
    assert_eq!(b.heartbeat_interval(), Duration::from_secs(1));
    assert!(!b.support_floodsub());
}

#[test]
fn boot_node_from_command_line_text() {
    let peer = PeerId::random();
    let mut nodes = vec![addr("/ip4/1.1.1.1/tcp/1")];
    let text = format!("/ip4/8.8.8.8/tcp/9000/p2p/{}", peer);
    assert!(add_node_from_text(&mut nodes, &text));
    assert_eq!(nodes, vec![addr("/ip4/1.1.1.1/tcp/1"), addr(&text)]);
    assert!(!add_node_from_text(&mut nodes, "ip4/8.8.8.8"));
    assert!(!add_node_from_text(&mut nodes, "/ip4/not-an-ip"));
    assert_eq!(nodes.len(), 2);
    assert!(add_node_from_text(&mut nodes, ""));
    assert!(nodes[2].is_empty());
}
