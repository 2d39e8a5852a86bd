//! Verified core of a small libp2p node: the choice of the node's network key,
//! the addresses it listens on and dials, its configuration defaults, the
//! gossipsub parameters and message identifiers, and the decisions taken on
//! each event of the node's event loop.

pub mod address;
pub mod key;
pub mod gossip;
pub mod config;
pub mod node;
