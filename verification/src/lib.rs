//! Core relay-side protocol logic of an inter-blockchain communication (IBC)
//! stack: validated identifiers and heights, light-client state machines for
//! client updates and misbehaviour, channel handshake message parsing, and the
//! packet timeout refund path. Every state transition is stated in contracts
//! and machine-checked.

pub mod chan_close_confirm;
pub mod client;
pub mod context;
pub mod errors;
pub mod events;
pub mod height;
pub mod host;
pub mod identifier;
pub mod signer;
pub mod timestamp;
pub mod transfer;
pub mod update_client;

pub use height::Height;
