//! What consumers and providers can do on the market.

use crate::key::copy_bytes;
use crate::market::storage::{bid_inserted, order_inserted, order_removed, Bid, Order, Storage};
use crate::market::types::{BidDetails, OrderDetails, OrderDetailsView, OrderId};
use crate::primitives::{AccountId, AgreementManagement, Balance, RequestsUsize};
use vstd::prelude::*;

verus! {

/// Why the market refuses.
#[derive(Debug, Clone, Copy, PartialEq, Eq, Structural)]
pub enum Error {
    /// Order is not found.
    OrderNotFound,
    /// Order is invalid.
    OrderInvalid,
    /// Bid is not found.
    BidNotFound,
    /// Bid already exists.
    BidAlreadyExists,
}

/// What happened on the market.
#[derive(Debug, PartialEq, Eq)]
pub enum Event {
    /// A new order has been created.
    OrderCreated { order_id: OrderId, model_id: Vec<u8> },
    /// A bid has been created.
    BidCreated { order_id: OrderId, provider: AccountId, price_per_request: Balance },
    /// A bid has been accepted.
    BidAccepted { order_id: OrderId, provider: AccountId },
}

/// An event of the market, as plain values.
pub enum EventView {
    OrderCreated { order_id: OrderId, model_id: Seq<u8> },
    BidCreated { order_id: OrderId, provider: AccountId, price_per_request: Balance },
    BidAccepted { order_id: OrderId, provider: AccountId },
}

impl View for Event {
    type V = EventView;

    open spec fn view(&self) -> EventView {
        match *self {
            Event::OrderCreated { order_id, model_id } => EventView::OrderCreated {
                order_id,
                model_id: model_id@,
            },
            Event::BidCreated { order_id, provider, price_per_request } => EventView::BidCreated {
                order_id,
                provider,
                price_per_request,
            },
            Event::BidAccepted { order_id, provider } => EventView::BidAccepted {
                order_id,
                provider,
            },
        }
    }
}

/// Why a bid was not accepted: the market refused, or the agreement could
/// not be made.
#[derive(Debug, PartialEq, Eq)]
pub enum AcceptError<E> {
    Market(Error),
    Agreement(E),
}

/// Why the market refuses to accept the bid of `provider` on an order on
/// behalf of `consumer`, if it does.
pub open spec fn accept_refusal(
    tables: crate::market::storage::StorageView,
    consumer: AccountId,
    order_id: OrderId,
    provider: AccountId,
) -> Option<Error> {
    if !tables.orders.contains_key(order_id) {
        Some(Error::OrderNotFound)
    } else if tables.orders[order_id].consumer != consumer {
        Some(Error::OrderInvalid)
    } else if !tables.order_bids.contains_key((order_id, provider)) {
        Some(Error::BidNotFound)
    } else {
        None
    }
}

/// What an accepted bid and its order say of the agreement to make.
#[derive(Debug, PartialEq, Eq)]
pub struct Terms {
    pub consumer: AccountId,
    pub provider: AccountId,
    pub order_id: OrderId,
    pub model_id: Vec<u8>,
    pub price_per_request: Balance,
    pub requests_total: RequestsUsize,
}

/// The market.
pub struct Pallet;

impl Pallet {
    /// Creates a new order of `consumer` on the market, unless it asks for
    /// no request or names no model.
    pub fn order_create(
        storage: &mut Storage,
        consumer: AccountId,
        model_id: Vec<u8>,
        requests_total: RequestsUsize,
    ) -> (result: Result<Event, Error>)
        requires
            old(storage)@.current_order_id < OrderId::MAX,
        ensures
            match result {
                Ok(event) => {
                    let order = OrderDetailsView { consumer, model_id: model_id@, requests_total };
                    &&& order.is_valid()
                    &&& final(storage)@ == order_inserted(old(storage)@, order)
                    &&& event@ == (EventView::OrderCreated {
                        order_id: (old(storage)@.current_order_id + 1) as OrderId,
                        model_id: model_id@,
                    })
                },
                Err(error) => {
                    &&& !(requests_total > 0 && model_id@.len() > 0)
                    &&& error == Error::OrderInvalid
                    &&& final(storage)@ == old(storage)@
                },
            },
    {
        let event_model = copy_bytes(&model_id);
        let order_details = OrderDetails::new(consumer, model_id, requests_total);
        if !order_details.is_valid() {
            return Err(Error::OrderInvalid);
        }
        let order_id = Order::insert(storage, order_details);
        Ok(Event::OrderCreated { order_id, model_id: event_model })
    }

    /// Executed by a provider to create a bid on an order that exists and
    /// that the provider has not bid on yet.
    pub fn bid_create(
        storage: &mut Storage,
        provider: AccountId,
        order_id: OrderId,
        price_per_request: Balance,
    ) -> (result: Result<Event, Error>)
        ensures
            match result {
                Ok(event) => {
                    &&& old(storage)@.orders.contains_key(order_id)
                    &&& !old(storage)@.order_bids.contains_key((order_id, provider))
                    &&& final(storage)@ == bid_inserted(
                        old(storage)@,
                        order_id,
                        provider,
                        BidDetails { provider, price_per_request },
                    )
                    &&& event@ == (EventView::BidCreated { order_id, provider, price_per_request })
                },
                Err(error) => {
                    &&& final(storage)@ == old(storage)@
                    &&& error == if !old(storage)@.orders.contains_key(order_id) {
                        Error::OrderNotFound
                    } else {
                        Error::BidAlreadyExists
                    }
                    &&& !old(storage)@.orders.contains_key(order_id)
                        || old(storage)@.order_bids.contains_key((order_id, provider))
                },
            },
    {
        if !Order::contains(storage, order_id) {
            return Err(Error::OrderNotFound);
        }
        if Bid::contains(storage, order_id, &provider) {
            return Err(Error::BidAlreadyExists);
        }
        let bid_details = BidDetails::new(provider, price_per_request);
        Bid::insert(storage, order_id, &provider, bid_details);
        Ok(Event::BidCreated { order_id, provider, price_per_request })
    }

    /// Whether `consumer` may accept the bid of `provider` on an order, and
    /// if so, what the agreement is to say.
    pub fn bid_accept_terms(
        storage: &Storage,
        consumer: AccountId,
        order_id: OrderId,
        provider: AccountId,
    ) -> (result: Result<Terms, Error>)
        ensures
            match result {
                Ok(terms) => {
                    &&& accept_refusal(storage@, consumer, order_id, provider) is None
                    &&& terms.consumer == consumer
                    &&& terms.provider == provider
                    &&& terms.order_id == order_id
                    &&& terms.model_id@ == storage@.orders[order_id].model_id
                    &&& terms.price_per_request == storage@.order_bids[(
                        order_id,
                        provider,
                    )].price_per_request
                    &&& terms.requests_total == storage@.orders[order_id].requests_total
                },
                Err(error) => accept_refusal(storage@, consumer, order_id, provider) == Some(error),
            },
    {
        let order = match storage.order(order_id) {
            Some(order) => order,
            None => {
                return Err(Error::OrderNotFound);
            },
        };
        if !order.is_owned_by(&consumer) {
            return Err(Error::OrderInvalid);
        }
        let bid = match storage.bid(order_id, provider) {
            Some(bid) => bid,
            None => {
                return Err(Error::BidNotFound);
            },
        };
        Ok(
            Terms {
                consumer,
                provider,
                order_id,
                model_id: copy_bytes(&order.model_id),
                price_per_request: bid.price_per_request,
                requests_total: order.requests_total,
            },
        )
    }

    /// Ends the acceptance of a bid once it is known whether the agreement
    /// was made: if it was, the order is removed with all that refers to it.
    pub fn bid_accept_conclude<E>(
        storage: &mut Storage,
        order_id: OrderId,
        provider: AccountId,
        created: Result<(), E>,
    ) -> (result: Result<Event, AcceptError<E>>)
        ensures
            match created {
                Ok(_) => {
                    &&& result is Ok
                    &&& result->Ok_0@ == (EventView::BidAccepted { order_id, provider })
                    &&& final(storage)@ == order_removed(old(storage)@, order_id)
                },
                Err(error) => {
                    &&& result == Err::<Event, AcceptError<E>>(AcceptError::Agreement(error))
                    &&& final(storage)@ == old(storage)@
                },
            },
    {
        match created {
            Ok(_) => {
                Order::remove(storage, order_id);
                Ok(Event::BidAccepted { order_id, provider })
            },
            Err(error) => Err(AcceptError::Agreement(error)),
        }
    }

    /// Executed by a consumer to accept a bid on an order: where the market
    /// does not refuse, the agreement is made by `agreements`, and if that
    /// goes well the order is removed with all that refers to it.
    pub fn bid_accept<A: AgreementManagement>(
        storage: &mut Storage,
        agreements: &mut A,
        consumer: AccountId,
        order_id: OrderId,
        provider: AccountId,
    ) -> (result: Result<Event, AcceptError<A::Error>>)
        ensures
            match accept_refusal(old(storage)@, consumer, order_id, provider) {
                Some(error) => {
                    &&& result == Err::<Event, AcceptError<A::Error>>(AcceptError::Market(error))
                    &&& final(storage)@ == old(storage)@
                },
                None => match result {
                    Ok(event) => {
                        &&& event@ == (EventView::BidAccepted { order_id, provider })
                        &&& final(storage)@ == order_removed(old(storage)@, order_id)
                    },
                    Err(error) => {
                        &&& error is Agreement
                        &&& final(storage)@ == old(storage)@
                    },
                },
            },
    {
        let terms = match Self::bid_accept_terms(storage, consumer, order_id, provider) {
            Ok(terms) => terms,
            Err(error) => {
                return Err(AcceptError::Market(error));
            },
        };
        let created = agreements.create_agreement(
            terms.consumer,
            terms.provider,
            terms.order_id,
            terms.model_id,
            terms.price_per_request,
            terms.requests_total,
        );
        Self::bid_accept_conclude(storage, order_id, provider, created)
    }
}

} // verus!
