//! The questions that the market asks before it acts.

use crate::market::storage::Storage;
use crate::market::types::{OrderDetails, OrderId};
use crate::primitives::AccountId;
use vstd::prelude::*;

verus! {

/// The rules of the market.
pub struct That;

impl That {
    /// Whether `consumer` placed the order.
    pub fn owns_order(storage: &Storage, consumer: &AccountId, order_id: OrderId) -> (owns: bool)
        ensures
            owns == storage@.consumer_orders.contains((*consumer, order_id)),
    {
        storage.notes_consumer(*consumer, order_id)
    }

    /// Whether the order asks for at least one request and names a model.
    pub fn order_valid(order: &OrderDetails) -> (valid: bool)
        ensures
            valid == order@.is_valid(),
    {
        order.requests_total > 0 && order.model_id.len() > 0
    }

    /// Whether the order exists.
    pub fn order_exists(storage: &Storage, order_id: OrderId) -> (found: bool)
        ensures
            found == storage@.orders.contains_key(order_id),
    {
        storage.order(order_id).is_some()
    }

    /// Whether `provider` has bid on the order.
    pub fn bid_exists(storage: &Storage, order_id: OrderId, provider: &AccountId) -> (found: bool)
        ensures
            found == storage@.order_bids.contains_key((order_id, *provider)),
    {
        storage.bid(order_id, *provider).is_some()
    }
}

} // verus!
