//! The node's event loop, as decisions: for each event it is handed, what the
//! node does next. The loop itself (reading standard input, polling the
//! swarm, carrying out the action) runs outside the library.

use vstd::prelude::*;
use vstd::string::*;

verus! {

/// The topic that lines of standard input are published on.
pub const CHAT_TOPIC: &'static str = "chat";

/// The name of the network the node's behaviour is configured for.
pub const BEHAVIOUR_NETWORK_NAME: &'static str = "GRN_network";

/// Timeout of the transport's connection upgrades, in seconds.
pub const TRANSPORT_TIMEOUT_SECS: u64 = 10;

/// Size of the buffer of events from the swarm to a connection handler.
pub const NOTIFY_HANDLER_BUFFER_SIZE: usize = 7;

/// Size of the buffer of events from a connection to the swarm.
pub const CONNECTION_EVENT_BUFFER_SIZE: usize = 64;

/// What the event loop is handed.
pub enum NodeEvent {
    /// A line read from standard input.
    InputLine(String),
    /// Discovery connected to a peer, reachable at these addresses.
    DiscoveryConnected { peer_id: libp2p::PeerId, addresses: Vec<libp2p::Multiaddr> },
    /// Discovery lost a peer.
    DiscoveryDisconnected { peer_id: libp2p::PeerId },
    /// Any other discovery event.
    DiscoveryOther,
    /// A gossipsub event: a message, a subscription or unsubscription, or a
    /// peer without gossipsub support.
    Gossipsub,
    /// Peer info identified a peer, which listens on these addresses.
    PeerIdentified { peer_id: libp2p::PeerId, addresses: Vec<libp2p::Multiaddr> },
    /// Peer info updated what it knows of a peer.
    PeerInfoUpdated { peer_id: libp2p::PeerId },
    /// Any other swarm event.
    Other,
}

/// What the node does in answer.
pub enum NodeAction {
    /// Publish `data` on the gossipsub topic `topic`.
    Publish { topic: String, data: Vec<u8> },
    /// Record the addresses of a peer in the peer info behaviour.
    AddAddressesToPeerInfo { peer_id: libp2p::PeerId, addresses: Vec<libp2p::Multiaddr> },
    /// Hand the addresses of a peer to the discovery behaviour.
    AddAddressesToDiscovery { peer_id: libp2p::PeerId, addresses: Vec<libp2p::Multiaddr> },
    /// Nothing beyond logging the event.
    Nothing,
}

/// The action for an event: a line of input is published, as UTF-8 bytes,
/// on the chat topic; the addresses of a peer that discovery connected to go
/// to peer info, and those of a peer that peer info identified go to
/// discovery, unchanged; every other event is only logged.
pub fn handle_event(event: NodeEvent) -> (action: NodeAction)
    ensures
        match event {
            NodeEvent::InputLine(line) => action matches NodeAction::Publish { topic, data }
                && topic@ == CHAT_TOPIC@ && data@ == vstd::utf8::encode_utf8(line@),
            NodeEvent::DiscoveryConnected { peer_id, addresses } => action
                == NodeAction::AddAddressesToPeerInfo { peer_id, addresses },
            NodeEvent::PeerIdentified { peer_id, addresses } => action
                == NodeAction::AddAddressesToDiscovery { peer_id, addresses },
            _ => action is Nothing,
        },
{
    match event {
        NodeEvent::InputLine(line) => NodeAction::Publish {
            topic: String::from_str(CHAT_TOPIC),
            data: line.as_str().as_bytes_vec(),
        },
        NodeEvent::DiscoveryConnected { peer_id, addresses } => NodeAction::AddAddressesToPeerInfo {
            peer_id,
            addresses,
        },
        NodeEvent::PeerIdentified { peer_id, addresses } => NodeAction::AddAddressesToDiscovery {
            peer_id,
            addresses,
        },
        _ => NodeAction::Nothing,
    }
}

} // verus!
