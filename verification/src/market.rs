//! The market: consumers place orders, providers bid on them.

pub mod pallet;
pub mod rules;
pub mod storage;
pub mod types;

pub use crate::market::pallet::{AcceptError, Error, Event, Pallet, Terms};
pub use crate::market::rules::That;
pub use crate::market::storage::{Bid, Order, Storage};
pub use crate::market::types::{BidDetails, OrderDetails, OrderId};
