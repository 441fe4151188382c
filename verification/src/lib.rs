//! Verified core of the chatpeer daemon: the end-to-end encryption layer, the
//! daemon's chat state machine, message identifiers, configuration defaults and
//! the wire and storage types that the daemon exchanges with its peers.
pub mod identity;
pub mod ids;
pub mod config;
pub mod crypto;
pub mod db;
pub mod peers;
pub mod protocol;
pub mod state;

