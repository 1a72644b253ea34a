//! Peer-to-peer content exchange: the decisions of the transfer worker and of
//! the lookup coordinator, stated as state machines over plain values.

pub mod encoding;
pub mod execution;
pub mod key;
pub mod market;
pub mod network;
pub mod node;
pub mod primitives;
pub mod rpc;
pub mod table;

pub use crate::encoding::{hex_digit, hex_of};
pub use crate::key::{PeerId, RecordKey};
