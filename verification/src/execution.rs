//! The execution of agreements: requests of the consumer, responses of the
//! provider, and what is paid for them.

pub mod pallet;
pub mod rpc;
pub mod storage;
pub mod types;

pub use crate::execution::pallet::{Event, Pallet};
pub use crate::execution::rpc::NetworkProvider;
pub use crate::execution::storage::{Agreement, Response, Storage};
pub use crate::execution::types::{AgreementDetails, AgreementId, Error, HoldReason, Payment};
