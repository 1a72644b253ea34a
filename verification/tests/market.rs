use airo_dx::market::{
    AcceptError, BidDetails, Error, Event, Order, OrderDetails, OrderId, Pallet, Storage, That,
};
use airo_dx::primitives::{AccountId, AgreementManagement, Balance, RequestsUsize};

const CONSUMER_1: AccountId = 1;
const CONSUMER_2: AccountId = 2;
const PROVIDER_1: AccountId = 11;
const PROVIDER_2: AccountId = 12;

struct MockAgreementManagement;

impl AgreementManagement for MockAgreementManagement {
    type Error = ();

    fn create_agreement(
        &mut self,
        _consumer: AccountId,
        _provider: AccountId,
        _order_id: OrderId,
        _model_id: Vec<u8>,
        _price_per_request: Balance,
        _requests_total: RequestsUsize,
    ) -> Result<(), ()> {
        Ok(())
    }
}

struct NoAgreement;

impl AgreementManagement for NoAgreement {
    type Error = u8;

    fn create_agreement(
        &mut self,
        _consumer: AccountId,
        _provider: AccountId,
        _order_id: OrderId,
        _model_id: Vec<u8>,
        _price_per_request: Balance,
        _requests_total: RequestsUsize,
    ) -> Result<(), u8> {
        Err(3)
    }
}

fn create_order(
    storage: &mut Storage,
    consumer: AccountId,
    model_id: &str,
    requests_total: RequestsUsize,
) -> OrderId {
    assert!(Pallet::order_create(storage, consumer, model_id.as_bytes().to_vec(), requests_total)
        .is_ok());
    storage.current_order_id()
}

fn create_bid(
    storage: &mut Storage,
    provider: AccountId,
    order_id: OrderId,
    price_per_request: Balance,
) {
    assert!(Pallet::bid_create(storage, provider, order_id, price_per_request).is_ok());
}

#[test]
fn can_order() {
    let mut storage = Storage::new();
    let model_id = "test_model";
    let requests_total = 10;

    let event = Pallet::order_create(
        &mut storage,
        CONSUMER_1,
        model_id.as_bytes().to_vec(),
        requests_total,
    );
    let order_id = storage.current_order_id();

    let expected_model_id = model_id.as_bytes().to_vec();
    let expected_order = OrderDetails::new(CONSUMER_1, expected_model_id.clone(), requests_total);
    assert_eq!(storage.order(order_id), Some(&expected_order));
    assert!(That::owns_order(&storage, &CONSUMER_1, order_id));
    assert_eq!(event, Ok(Event::OrderCreated { order_id, model_id: expected_model_id }));
    assert_eq!(order_id, 1);
}

#[test]
fn fail_order_zero() {
    let mut storage = Storage::new();
    assert_eq!(
        Pallet::order_create(&mut storage, CONSUMER_1, "model_id".as_bytes().to_vec(), 0),
        Err(Error::OrderInvalid)
    );
    assert_eq!(storage.current_order_id(), 0);
    assert!(!Order::contains(&storage, 1));
}

#[test]
fn fail_order_without_model() {
    let mut storage = Storage::new();
    assert_eq!(
        Pallet::order_create(&mut storage, CONSUMER_1, Vec::new(), 4),
        Err(Error::OrderInvalid)
    );
    assert_eq!(storage.current_order_id(), 0);
}

#[test]
fn can_bid() {
    let mut storage = Storage::new();
    let order_id = create_order(&mut storage, CONSUMER_1, "model_id", 1);

    let price = 1000;
    let event = Pallet::bid_create(&mut storage, PROVIDER_1, order_id, price);

    let expected_bid = BidDetails::new(PROVIDER_1, price);
    assert_eq!(storage.bid(order_id, PROVIDER_1), Some(expected_bid));
    assert!(storage.notes_provider(PROVIDER_1, order_id));
    assert_eq!(
        event,
        Ok(Event::BidCreated { order_id, provider: PROVIDER_1, price_per_request: price })
    );
}

#[test]
fn fail_bid_missing_order() {
    let mut storage = Storage::new();
    let order_id = create_order(&mut storage, CONSUMER_1, "model_id", 1);

    assert_eq!(
        Pallet::bid_create(&mut storage, PROVIDER_1, order_id + 1, 1000),
        Err(Error::OrderNotFound)
    );
    assert!(!storage.has_bids(order_id + 1));
    assert!(!storage.notes_provider(PROVIDER_1, order_id + 1));
}

#[test]
fn fail_bid_same_order() {
    let mut storage = Storage::new();
    let order_id = create_order(&mut storage, CONSUMER_1, "model_id", 1);
    create_bid(&mut storage, PROVIDER_1, order_id, 1000);

    assert_eq!(
        Pallet::bid_create(&mut storage, PROVIDER_1, order_id, 200),
        Err(Error::BidAlreadyExists)
    );
    assert_eq!(storage.bid(order_id, PROVIDER_1), Some(BidDetails::new(PROVIDER_1, 1000)));
}

#[test]
fn can_accept_bid() {
    let mut storage = Storage::new();
    let order_id = create_order(&mut storage, CONSUMER_1, "model_id", 5);
    create_bid(&mut storage, PROVIDER_1, order_id, 2000);
    create_bid(&mut storage, PROVIDER_2, order_id, 1000);

    let event = Pallet::bid_accept(
        &mut storage,
        &mut MockAgreementManagement,
        CONSUMER_1,
        order_id,
        PROVIDER_2,
    );

    // Check that the order was removed
    assert!(!Order::contains(&storage, order_id));
    assert!(!storage.has_bids(order_id));
    assert!(!storage.notes_provider(PROVIDER_1, order_id));
    assert!(!storage.notes_provider(PROVIDER_2, order_id));
    assert!(!storage.notes_consumer(CONSUMER_1, order_id));

    assert_eq!(event, Ok(Event::BidAccepted { order_id, provider: PROVIDER_2 }));
}

#[test]
fn fail_accept_missing_order() {
    let mut storage = Storage::new();
    assert_eq!(
        Pallet::bid_accept(&mut storage, &mut MockAgreementManagement, CONSUMER_1, 1, 2),
        Err(AcceptError::Market(Error::OrderNotFound))
    );
}

#[test]
fn fail_accept_non_owned_order() {
    let mut storage = Storage::new();
    let order_id = create_order(&mut storage, CONSUMER_1, "model_id", 1);
    assert_eq!(
        Pallet::bid_accept(&mut storage, &mut MockAgreementManagement, CONSUMER_2, order_id, 2),
        Err(AcceptError::Market(Error::OrderInvalid))
    );
    assert!(Order::contains(&storage, order_id));
}

#[test]
fn fail_accept_missing_bid() {
    let mut storage = Storage::new();
    let order_id = create_order(&mut storage, CONSUMER_1, "model_id", 1);
    assert_eq!(
        Pallet::bid_accept(&mut storage, &mut MockAgreementManagement, CONSUMER_1, order_id, 2),
        Err(AcceptError::Market(Error::BidNotFound))
    );
    assert!(Order::contains(&storage, order_id));
}

#[test]
fn order_stays_when_the_agreement_is_not_made() {
    let mut storage = Storage::new();
    let order_id = create_order(&mut storage, CONSUMER_1, "model_id", 1);
    create_bid(&mut storage, PROVIDER_1, order_id, 10);
    assert_eq!(
        Pallet::bid_accept(&mut storage, &mut NoAgreement, CONSUMER_1, order_id, PROVIDER_1),
        Err(AcceptError::Agreement(3))
    );
    assert!(Order::contains(&storage, order_id));
    assert!(storage.has_bids(order_id));
    assert!(storage.notes_provider(PROVIDER_1, order_id));
}

#[test]
fn terms_come_from_order_and_bid() {
    let mut storage = Storage::new();
    let order_id = create_order(&mut storage, CONSUMER_1, "model_id", 5);
    create_bid(&mut storage, PROVIDER_1, order_id, 2000);
    let terms = Pallet::bid_accept_terms(&storage, CONSUMER_1, order_id, PROVIDER_1).unwrap();
    assert_eq!(terms.consumer, CONSUMER_1);
    assert_eq!(terms.provider, PROVIDER_1);
    assert_eq!(terms.order_id, order_id);
    assert_eq!(terms.model_id, "model_id".as_bytes().to_vec());
    assert_eq!(terms.price_per_request, 2000);
    assert_eq!(terms.requests_total, 5);
}

#[test]
fn removing_an_order_leaves_the_others() {
    let mut storage = Storage::new();
    let first = create_order(&mut storage, CONSUMER_1, "a", 1);
    let second = create_order(&mut storage, CONSUMER_2, "b", 2);
    assert_eq!((first, second), (1, 2));
    create_bid(&mut storage, PROVIDER_1, first, 10);
    create_bid(&mut storage, PROVIDER_1, second, 20);
    create_bid(&mut storage, PROVIDER_2, second, 30);

    Order::remove(&mut storage, first);
    assert!(!That::order_exists(&storage, first));
    assert!(That::order_exists(&storage, second));
    assert!(!That::owns_order(&storage, &CONSUMER_1, first));
    assert!(That::owns_order(&storage, &CONSUMER_2, second));
    assert!(!That::bid_exists(&storage, first, &PROVIDER_1));
    assert!(That::bid_exists(&storage, second, &PROVIDER_1));
    assert!(That::bid_exists(&storage, second, &PROVIDER_2));
    assert!(!storage.notes_provider(PROVIDER_1, first));
    assert!(storage.notes_provider(PROVIDER_1, second));

    Order::remove(&mut storage, first);
    assert!(That::order_exists(&storage, second));
    assert_eq!(storage.current_order_id(), 2);
}

#[test]
fn valid_orders_ask_for_requests_to_a_model() {
    assert!(That::order_valid(&OrderDetails::new(CONSUMER_1, vec![1], 1)));
    assert!(!That::order_valid(&OrderDetails::new(CONSUMER_1, vec![1], 0)));
    assert!(!That::order_valid(&OrderDetails::new(CONSUMER_1, vec![], 1)));
    let order = OrderDetails::new(CONSUMER_1, vec![1], 1);
    assert!(order.is_owned_by(&CONSUMER_1));
    assert!(!order.is_owned_by(&CONSUMER_2));
    assert!(order.same(&order.clone()));
}
