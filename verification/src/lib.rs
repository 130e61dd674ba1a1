//! Decentralized peer discovery over a publish/subscribe overlay.
//!
//! Nodes periodically announce their own identity and reachable addresses on a
//! well-known topic; peers subscribed to that topic learn of each other and may
//! establish direct connections. This crate holds the protocol core: the wire
//! codec for announcements, the start/stop lifecycle state machine, the
//! periodic broadcast scheduler's decision rules, and the inbound-announcement
//! handler. All network and timer work (the swarm, the pub/sub bus, tasks) is
//! performed by the embedding application, which feeds outcomes and events back
//! into these verified functions.

pub mod admin;
pub mod codec;
pub mod discovery;
pub mod handler;
pub mod identity;
pub mod scheduler;

pub use admin::AdminServer;
pub use codec::Announcement;
pub use discovery::broadcast;
pub use discovery::PubSubPeerDiscovery;
pub use identity::Identity;
pub use identity::MultiAddress;

