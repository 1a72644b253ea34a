//! The tables of the market and the operations that keep them in step.

use crate::market::types::{BidDetails, OrderDetails, OrderDetailsView, OrderId};
use crate::primitives::AccountId;
use crate::table::{seconds_of, without_prefix, Table};
use std::collections::HashMap;
use vstd::prelude::*;

verus! {

broadcast use vstd::std_specs::hash::group_hash_axioms;

/// The tables of the market, as plain values.
pub struct StorageView {
    /// The number of the order that was placed last.
    pub current_order_id: OrderId,
    /// The orders that exist.
    pub orders: Map<OrderId, OrderDetailsView>,
    /// Which consumer placed which order.
    pub consumer_orders: Set<(AccountId, OrderId)>,
    /// Which provider bid on which order.
    pub provider_orders: Set<(AccountId, OrderId)>,
    /// The bids that exist, by order and provider.
    pub order_bids: Map<(OrderId, AccountId), BidDetails>,
}

/// The orders of a table, as plain values.
pub open spec fn orders_of(table: Map<OrderId, OrderDetails>) -> Map<OrderId, OrderDetailsView> {
    Map::new(|id: OrderId| table.contains_key(id), |id: OrderId| table[id]@)
}

/// The pairs of an account and an order that a table holds.
pub open spec fn pairs_of(table: Map<(u64, u64), ()>) -> Set<(AccountId, OrderId)> {
    Set::new(|pair: (AccountId, OrderId)| table.contains_key((pair.0, pair.1 as u64)))
}

/// The bids of a table, by order and provider.
pub open spec fn bids_of(table: Map<(u64, u64), BidDetails>) -> Map<
    (OrderId, AccountId),
    BidDetails,
> {
    Map::new(
        |key: (OrderId, AccountId)| table.contains_key((key.0 as u64, key.1)),
        |key: (OrderId, AccountId)| table[(key.0 as u64, key.1)],
    )
}

/// The tables after a new order was placed under the next number.
pub open spec fn order_inserted(tables: StorageView, order: OrderDetailsView) -> StorageView {
    let order_id = (tables.current_order_id + 1) as OrderId;
    StorageView {
        current_order_id: order_id,
        orders: tables.orders.insert(order_id, order),
        consumer_orders: tables.consumer_orders.insert((order.consumer, order_id)),
        ..tables
    }
}

/// The tables after an order was removed with all that refers to it: the
/// note of who placed it, its bids, and the notes of who bid on it. Without
/// such an order the tables stay as they are.
pub open spec fn order_removed(tables: StorageView, order_id: OrderId) -> StorageView {
    if tables.orders.contains_key(order_id) {
        StorageView {
            current_order_id: tables.current_order_id,
            orders: tables.orders.remove(order_id),
            consumer_orders: tables.consumer_orders.remove(
                (tables.orders[order_id].consumer, order_id),
            ),
            provider_orders: Set::new(
                |pair: (AccountId, OrderId)|
                    tables.provider_orders.contains(pair) && !(pair.1 == order_id
                        && tables.order_bids.contains_key((order_id, pair.0))),
            ),
            order_bids: Map::new(
                |key: (OrderId, AccountId)| tables.order_bids.contains_key(key) && key.0 != order_id,
                |key: (OrderId, AccountId)| tables.order_bids[key],
            ),
        }
    } else {
        tables
    }
}

/// The tables after `provider` bid on an order.
pub open spec fn bid_inserted(
    tables: StorageView,
    order_id: OrderId,
    provider: AccountId,
    bid: BidDetails,
) -> StorageView {
    StorageView {
        provider_orders: tables.provider_orders.insert((provider, order_id)),
        order_bids: tables.order_bids.insert((order_id, provider), bid),
        ..tables
    }
}

/// The tables of the market.
pub struct Storage {
    current_order_id: OrderId,
    orders: HashMap<OrderId, OrderDetails>,
    consumer_orders: Table<(u64, u64), ()>,
    provider_orders: Table<(u64, u64), ()>,
    order_bids: Table<(u64, u64), BidDetails>,
}

impl View for Storage {
    type V = StorageView;

    closed spec fn view(&self) -> StorageView {
        StorageView {
            current_order_id: self.current_order_id,
            orders: orders_of(self.orders@),
            consumer_orders: pairs_of(self.consumer_orders@),
            provider_orders: pairs_of(self.provider_orders@),
            order_bids: bids_of(self.order_bids@),
        }
    }
}

impl Storage {
    /// The tables of a market on which nothing has happened.
    pub fn new() -> (storage: Self)
        ensures
            storage@ == (StorageView {
                current_order_id: 0,
                orders: Map::empty(),
                consumer_orders: Set::empty(),
                provider_orders: Set::empty(),
                order_bids: Map::empty(),
            }),
    {
        let storage = Storage {
            current_order_id: 0,
            orders: HashMap::new(),
            consumer_orders: Table::new(),
            provider_orders: Table::new(),
            order_bids: Table::new(),
        };
        assert(storage@.orders =~= Map::empty());
        assert(storage@.consumer_orders =~= Set::empty());
        assert(storage@.provider_orders =~= Set::empty());
        assert(storage@.order_bids =~= Map::empty());
        storage
    }

    /// The number of the order that was placed last.
    pub fn current_order_id(&self) -> (order_id: OrderId)
        ensures
            order_id == self@.current_order_id,
    {
        self.current_order_id
    }

    /// The order with the given number, if it exists.
    pub fn order(&self, order_id: OrderId) -> (order: Option<&OrderDetails>)
        ensures
            match order {
                Some(details) => self@.orders.contains_key(order_id) && details@
                    == self@.orders[order_id],
                None => !self@.orders.contains_key(order_id),
            },
    {
        self.orders.get(&order_id)
    }

    /// The bid of `provider` on an order, if it exists.
    pub fn bid(&self, order_id: OrderId, provider: AccountId) -> (bid: Option<BidDetails>)
        ensures
            match bid {
                Some(details) => self@.order_bids.contains_key((order_id, provider)) && details
                    == self@.order_bids[(order_id, provider)],
                None => !self@.order_bids.contains_key((order_id, provider)),
            },
    {
        match self.order_bids.get(&(order_id as u64, provider)) {
            Some(details) => Some(*details),
            None => None,
        }
    }

    /// Whether the tables note that `consumer` placed the order.
    pub fn notes_consumer(&self, consumer: AccountId, order_id: OrderId) -> (noted: bool)
        ensures
            noted == self@.consumer_orders.contains((consumer, order_id)),
    {
        self.consumer_orders.contains_key(&(consumer, order_id as u64))
    }

    /// Whether the tables note that `provider` bid on the order.
    pub fn notes_provider(&self, provider: AccountId, order_id: OrderId) -> (noted: bool)
        ensures
            noted == self@.provider_orders.contains((provider, order_id)),
    {
        self.provider_orders.contains_key(&(provider, order_id as u64))
    }

    /// Whether any bid on the order exists.
    pub fn has_bids(&self, order_id: OrderId) -> (found: bool)
        ensures
            found == exists|provider: AccountId|
                self@.order_bids.contains_key((order_id, provider)),
    {
        let first = order_id as u64;
        let found = self.order_bids.contains_prefix(first);
        proof {
            if found {
                let provider = choose|provider: u64|
                    self.order_bids@.contains_key((first, provider));
                assert(self@.order_bids.contains_key((order_id, provider)));
            }
        }
        found
    }
}

/// The orders of the market.
pub struct Order;

impl Order {
    /// Whether the order exists.
    pub fn contains(storage: &Storage, order_id: OrderId) -> (found: bool)
        ensures
            found == storage@.orders.contains_key(order_id),
    {
        storage.orders.contains_key(&order_id)
    }

    /// Places an order under the next number and returns that number.
    pub fn insert(storage: &mut Storage, order: OrderDetails) -> (order_id: OrderId)
        requires
            old(storage)@.current_order_id < OrderId::MAX,
        ensures
            order_id == old(storage)@.current_order_id + 1,
            final(storage)@ == order_inserted(old(storage)@, order@),
    {
        let order_id = storage.current_order_id + 1;
        storage.current_order_id = order_id;
        let _ = storage.consumer_orders.insert((order.consumer, order_id as u64), ());
        let _ = storage.orders.insert(order_id, order);
        assert(storage@.orders =~= order_inserted(old(storage)@, order@).orders);
        assert(storage@.consumer_orders =~= order_inserted(old(storage)@, order@).consumer_orders);
        order_id
    }

    /// Removes the order with all that refers to it; without such an order
    /// nothing changes.
    pub fn remove(storage: &mut Storage, order_id: OrderId)
        ensures
            final(storage)@ == order_removed(old(storage)@, order_id),
    {
        match storage.orders.remove(&order_id) {
            Some(order) => {
                let _ = storage.consumer_orders.remove(&(order.consumer, order_id as u64));
                let drained = storage.order_bids.drain_prefix(order_id as u64);
                let ghost noted = storage.provider_orders@;
                let mut i: usize = 0;
                while i < drained.len()
                    invariant
                        i <= drained@.len(),
                        storage.current_order_id == old(storage).current_order_id,
                        storage.orders@ == old(storage).orders@.remove(order_id),
                        storage.consumer_orders@ == old(storage).consumer_orders@.remove(
                            (order.consumer, order_id as u64),
                        ),
                        storage.order_bids@ == without_prefix(
                            old(storage).order_bids@,
                            order_id as u64,
                        ),
                        storage.provider_orders@ == Map::new(
                            |key: (u64, u64)|
                                noted.contains_key(key) && !(key.1 == order_id as u64 && seconds_of(
                                    drained@,
                                ).subrange(0, i as int).contains(key.0)),
                            |key: (u64, u64)| (),
                        ),
                    decreases drained@.len() - i,
                {
                    let provider = drained[i].0;
                    let ghost before = seconds_of(drained@).subrange(0, i as int);
                    let ghost after = seconds_of(drained@).subrange(0, i + 1);
                    let _ = storage.provider_orders.remove(&(provider, order_id as u64));
                    proof {
                        assert(after =~= before.push(provider));
                        assert forall|other: u64|
                            after.contains(other) <==> before.contains(other) || other
                                == provider by {
                            if before.contains(other) {
                                let k = before.index_of(other);
                                assert(after[k] == other);
                            }
                            if after.contains(other) && other != provider {
                                let k = after.index_of(other);
                                assert(before[k] == other);
                            }
                            assert(after[i as int] == provider);
                        }
                        assert(storage.provider_orders@ =~= Map::new(
                            |key: (u64, u64)|
                                noted.contains_key(key) && !(key.1 == order_id as u64
                                    && after.contains(key.0)),
                            |key: (u64, u64)| (),
                        ));
                    }
                    i += 1;
                }
                proof {
                    let ghost target = order_removed(old(storage)@, order_id);
                    assert(seconds_of(drained@).subrange(0, i as int) =~= seconds_of(drained@));
                    assert(storage@.orders =~= target.orders);
                    assert(storage@.consumer_orders =~= target.consumer_orders);
                    assert(storage@.order_bids =~= target.order_bids);
                    assert(storage@.provider_orders =~= target.provider_orders);
                }
            },
            None => {
                assert(storage@.orders =~= old(storage)@.orders);
            },
        }
    }
}

/// The bids of the market.
pub struct Bid;

impl Bid {
    /// Whether `provider` has bid on the order.
    pub fn contains(storage: &Storage, order_id: OrderId, provider: &AccountId) -> (found: bool)
        ensures
            found == storage@.order_bids.contains_key((order_id, *provider)),
    {
        storage.order_bids.contains_key(&(order_id as u64, *provider))
    }

    /// Records the bid of `provider` on the order, in place of an earlier
    /// bid of the same provider on it.
    pub fn insert(storage: &mut Storage, order_id: OrderId, provider: &AccountId, bid: BidDetails)
        ensures
            final(storage)@ == bid_inserted(old(storage)@, order_id, *provider, bid),
    {
        let _ = storage.provider_orders.insert((*provider, order_id as u64), ());
        let _ = storage.order_bids.insert((order_id as u64, *provider), bid);
        assert(storage@.provider_orders =~= bid_inserted(
            old(storage)@,
            order_id,
            *provider,
            bid,
        ).provider_orders);
        assert(storage@.order_bids =~= bid_inserted(
            old(storage)@,
            order_id,
            *provider,
            bid,
        ).order_bids);
    }
}

} // verus!
