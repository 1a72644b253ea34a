//! Orders and bids.

use crate::key::{copy_bytes, same_bytes};
use crate::primitives::{AccountId, Balance, RequestsUsize};
use vstd::prelude::*;

verus! {

/// The number of an order.
pub type OrderId = u32;

/// What a consumer orders: a number of requests to a model.
#[derive(Debug, PartialEq, Eq)]
pub struct OrderDetails {
    pub consumer: AccountId,
    pub model_id: Vec<u8>,
    pub requests_total: RequestsUsize,
}

/// An order, as plain values.
pub struct OrderDetailsView {
    pub consumer: AccountId,
    pub model_id: Seq<u8>,
    pub requests_total: RequestsUsize,
}

impl View for OrderDetails {
    type V = OrderDetailsView;

    open spec fn view(&self) -> OrderDetailsView {
        OrderDetailsView {
            consumer: self.consumer,
            model_id: self.model_id@,
            requests_total: self.requests_total,
        }
    }
}

impl OrderDetailsView {
    /// Whether the order asks for at least one request and names a model.
    pub open spec fn is_valid(self) -> bool {
        self.requests_total > 0 && self.model_id.len() > 0
    }
}

impl Clone for OrderDetails {
    fn clone(&self) -> (copy: Self)
        ensures
            copy@ == self@,
    {
        OrderDetails {
            consumer: self.consumer,
            model_id: copy_bytes(&self.model_id),
            requests_total: self.requests_total,
        }
    }
}

impl OrderDetails {
    /// The order of `consumer` for `requests_total` requests to `model_id`.
    pub fn new(consumer: AccountId, model_id: Vec<u8>, requests_total: RequestsUsize) -> (order:
        Self)
        ensures
            order@ == (OrderDetailsView { consumer, model_id: model_id@, requests_total }),
    {
        OrderDetails { consumer, model_id, requests_total }
    }

    /// Whether the order asks for at least one request and names a model.
    pub fn is_valid(&self) -> (valid: bool)
        ensures
            valid == self@.is_valid(),
    {
        self.requests_total > 0 && self.model_id.len() > 0
    }

    /// Whether the order was placed by `consumer`.
    pub fn is_owned_by(&self, consumer: &AccountId) -> (owned: bool)
        ensures
            owned == (self@.consumer == *consumer),
    {
        self.consumer == *consumer
    }

    /// Whether two orders say the same.
    pub fn same(&self, other: &Self) -> (same: bool)
        ensures
            same == (self@ == other@),
    {
        self.consumer == other.consumer && same_bytes(&self.model_id, &other.model_id)
            && self.requests_total == other.requests_total
    }
}

/// What a provider bids on an order: a price for each request.
#[derive(Debug, Clone, Copy, PartialEq, Eq)]
pub struct BidDetails {
    pub provider: AccountId,
    pub price_per_request: Balance,
}

impl BidDetails {
    /// The bid of `provider` at `price_per_request`.
    pub fn new(provider: AccountId, price_per_request: Balance) -> (bid: Self)
        ensures
            bid == (BidDetails { provider, price_per_request }),
    {
        BidDetails { provider, price_per_request }
    }
}

} // verus!
