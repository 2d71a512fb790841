//! Peer network coordinator of a peer-to-peer node: the registry of known peers
//! (tentative, stable, blacklisted) and the decisions taken on each transport event and
//! each application command, as a step function from registry and input to registry and
//! actions.
pub mod peer_list;
pub mod server;
pub mod table;
pub mod types;
