use airo_dx::execution::{
    AgreementDetails, AgreementId, Error, Event, HoldReason, Pallet, Payment, Response, Storage,
};
use airo_dx::primitives::{AccountId, Balance, RequestsUsize, RoyaltyResolver};
use std::collections::HashMap;

const INITIAL_BALANCE: Balance = 1_000_000_000;
const CONSUMER_NO_BALANCE: AccountId = 0;
const CONSUMER_1: AccountId = 1;
const CONSUMER_2: AccountId = 2;
const PROVIDER_1: AccountId = 11;
const PROVIDER_2: AccountId = 12;

#[derive(Debug, PartialEq)]
enum TokenError {
    FundsUnavailable,
}

struct Balances {
    free: HashMap<AccountId, Balance>,
    held: HashMap<(HoldReason, AccountId), Balance>,
}

impl Balances {
    fn new() -> Self {
        let mut free = HashMap::new();
        free.insert(CONSUMER_1, INITIAL_BALANCE);
        free.insert(CONSUMER_2, INITIAL_BALANCE);
        Self { free, held: HashMap::new() }
    }

    fn balance(&self, who: AccountId) -> Balance {
        self.free.get(&who).copied().unwrap_or(0)
    }

    fn balance_on_hold(&self, reason: HoldReason, who: AccountId) -> Balance {
        self.held.get(&(reason, who)).copied().unwrap_or(0)
    }

    fn perform(&mut self, payment: Payment) -> Result<(), TokenError> {
        match payment {
            Payment::Hold { reason, who, amount } => {
                let free = self.balance(who);
                if free < amount {
                    return Err(TokenError::FundsUnavailable);
                }
                self.free.insert(who, free - amount);
                let held = self.balance_on_hold(reason, who);
                self.held.insert((reason, who), held + amount);
            },
            Payment::TransferOnHold { reason, source, dest, amount } => {
                let held = self.balance_on_hold(reason, source);
                let moved = amount.min(held);
                self.held.insert((reason, source), held - moved);
                let free = self.balance(dest);
                self.free.insert(dest, free + moved);
            },
            Payment::Release { reason, who, amount } => {
                let held = self.balance_on_hold(reason, who);
                let freed = amount.min(held);
                self.held.insert((reason, who), held - freed);
                let free = self.balance(who);
                self.free.insert(who, free + freed);
            },
        }
        Ok(())
    }
}

fn make_agreement(
    storage: &mut Storage,
    balances: &mut Balances,
    consumer: AccountId,
    provider: AccountId,
    agreement_id: AgreementId,
    model_id: Vec<u8>,
    price_per_request: Balance,
    requests_total: RequestsUsize,
) -> Result<Event, TokenError> {
    let agreement =
        AgreementDetails::new(consumer, provider, model_id, price_per_request, 0, requests_total);
    for hold in agreement.hold_consumer_prepayment() {
        balances.perform(hold)?;
    }
    Ok(Pallet::create_agreement(storage, agreement_id, agreement))
}

fn create_agreement(
    storage: &mut Storage,
    balances: &mut Balances,
    agreement_id: AgreementId,
    consumer: AccountId,
    provider: AccountId,
    price_per_request: Balance,
    requests_total: RequestsUsize,
) {
    assert!(make_agreement(
        storage,
        balances,
        consumer,
        provider,
        agreement_id,
        Vec::new(),
        price_per_request,
        requests_total,
    )
    .is_ok());
}

fn create_request(
    storage: &mut Storage,
    consumer: AccountId,
    agreement_id: AgreementId,
) -> RequestsUsize {
    assert!(Pallet::request_create(storage, consumer, agreement_id, vec![0; 32]).is_ok());
    storage.agreement(agreement_id).unwrap().requests_count()
}

fn respond(
    storage: &mut Storage,
    balances: &mut Balances,
    provider: AccountId,
    agreement_id: AgreementId,
    request_index: RequestsUsize,
    content_id: Vec<u8>,
) -> Result<Event, Error> {
    let payments =
        Pallet::response_payments(storage, provider, agreement_id, request_index, None)?;
    for payment in payments {
        balances.perform(payment).unwrap();
    }
    Ok(Pallet::response_create(storage, agreement_id, request_index, content_id))
}

#[test]
fn can_create_agreement() {
    let mut storage = Storage::new();
    let mut balances = Balances::new();
    let agreement_id = 1;
    let model_id: Vec<u8> = vec![1, 2, 3];
    let price_per_request = 100;
    let requests_total = 5;

    let event = make_agreement(
        &mut storage,
        &mut balances,
        CONSUMER_1,
        PROVIDER_1,
        agreement_id,
        model_id.clone(),
        price_per_request,
        requests_total,
    );

    let expected_agreement =
        AgreementDetails::new(CONSUMER_1, PROVIDER_1, model_id, price_per_request, 0, requests_total);
    assert_eq!(storage.agreement(agreement_id), Some(&expected_agreement));
    assert!(storage.notes_consumer(CONSUMER_1, agreement_id));
    assert!(storage.notes_provider(PROVIDER_1, agreement_id));
    assert_eq!(
        balances.balance(CONSUMER_1),
        INITIAL_BALANCE - price_per_request * requests_total as Balance
    );
    assert_eq!(
        balances.balance_on_hold(HoldReason::ProviderPayment, CONSUMER_1),
        price_per_request * requests_total as Balance
    );

    assert_eq!(event, Ok(Event::AgreementCreated { agreement_id }));
}

#[test]
fn fail_create_agreement_no_funds() {
    let mut storage = Storage::new();
    let mut balances = Balances::new();
    assert_eq!(
        make_agreement(
            &mut storage,
            &mut balances,
            CONSUMER_NO_BALANCE,
            PROVIDER_1,
            1,
            Vec::new(),
            100,
            5
        ),
        Err(TokenError::FundsUnavailable)
    );
    assert!(storage.agreement(1).is_none());
}

#[test]
fn can_request() {
    let mut storage = Storage::new();
    let mut balances = Balances::new();
    let agreement_id = 1;
    create_agreement(&mut storage, &mut balances, agreement_id, CONSUMER_1, PROVIDER_1, 100, 10);

    let content_id: Vec<u8> = (1..=32).collect();
    let event = Pallet::request_create(&mut storage, CONSUMER_1, agreement_id, content_id.clone());

    assert_eq!(storage.request(agreement_id, 1), Some(&content_id));
    assert_eq!(storage.agreement(agreement_id).unwrap().requests_count(), 1);

    assert_eq!(event, Ok(Event::RequestCreated { agreement_id, request_index: 1, content_id }));
}

#[test]
fn fail_request_missing_agreement() {
    let mut storage = Storage::new();
    assert_eq!(
        Pallet::request_create(&mut storage, CONSUMER_1, 1, vec![0; 32]),
        Err(Error::AgreementNotFound)
    );
    assert!(storage.request(1, 1).is_none());
}

#[test]
fn fail_request_non_owned_agreement() {
    let mut storage = Storage::new();
    let mut balances = Balances::new();
    let agreement_id = 1;
    create_agreement(&mut storage, &mut balances, agreement_id, CONSUMER_1, PROVIDER_1, 100, 10);
    assert_eq!(
        Pallet::request_create(&mut storage, CONSUMER_2, agreement_id, vec![0; 32]),
        Err(Error::AgreementInvalid)
    );
    assert_eq!(storage.agreement(agreement_id).unwrap().requests_count(), 0);
}

#[test]
fn fail_request_exceed_limit() {
    let mut storage = Storage::new();
    let mut balances = Balances::new();
    let agreement_id = 1;
    create_agreement(&mut storage, &mut balances, agreement_id, CONSUMER_1, PROVIDER_1, 100, 2);
    create_request(&mut storage, CONSUMER_1, agreement_id);
    create_request(&mut storage, CONSUMER_1, agreement_id);

    assert_eq!(
        Pallet::request_create(&mut storage, CONSUMER_1, agreement_id, vec![0; 32]),
        Err(Error::RequestNotAllowed)
    );
    assert_eq!(storage.agreement(agreement_id).unwrap().requests_count(), 2);
    assert!(storage.request(agreement_id, 3).is_none());
}

#[test]
fn can_respond() {
    let mut storage = Storage::new();
    let mut balances = Balances::new();
    let agreement_id = 1;
    let price_per_request = 100;
    create_agreement(
        &mut storage,
        &mut balances,
        agreement_id,
        CONSUMER_1,
        PROVIDER_1,
        price_per_request,
        10,
    );
    let request_index = create_request(&mut storage, CONSUMER_1, agreement_id);

    let content_id: Vec<u8> = (33..=64).collect();
    let event = respond(
        &mut storage,
        &mut balances,
        PROVIDER_1,
        agreement_id,
        request_index,
        content_id.clone(),
    );

    assert_eq!(storage.response(agreement_id, request_index), Some(&content_id));
    assert_eq!(balances.balance(PROVIDER_1), price_per_request);

    assert_eq!(event, Ok(Event::ResponseCreated { agreement_id, request_index, content_id }));
}

#[test]
fn fail_respond_missing_agreement() {
    let mut storage = Storage::new();
    let mut balances = Balances::new();
    assert_eq!(
        respond(&mut storage, &mut balances, PROVIDER_1, 1, 1, vec![0; 32]),
        Err(Error::AgreementNotFound)
    );
}

#[test]
fn fail_respond_non_owned_agreement() {
    let mut storage = Storage::new();
    let mut balances = Balances::new();
    let agreement_id = 1;
    create_agreement(&mut storage, &mut balances, agreement_id, CONSUMER_1, PROVIDER_1, 100, 10);
    let request_index = create_request(&mut storage, CONSUMER_1, agreement_id);

    assert_eq!(
        respond(&mut storage, &mut balances, PROVIDER_2, agreement_id, request_index, vec![0; 32]),
        Err(Error::AgreementInvalid)
    );
    assert!(!Response::contains(&storage, agreement_id, request_index));
}

#[test]
fn fail_respond_missing_request() {
    let mut storage = Storage::new();
    let mut balances = Balances::new();
    let agreement_id = 1;
    create_agreement(&mut storage, &mut balances, agreement_id, CONSUMER_1, PROVIDER_1, 100, 10);

    assert_eq!(
        respond(&mut storage, &mut balances, PROVIDER_1, agreement_id, 1, vec![0; 32]),
        Err(Error::RequestNotFound)
    );
    assert!(!Response::contains(&storage, agreement_id, 1));
}

#[test]
fn fail_respond_same_request() {
    let mut storage = Storage::new();
    let mut balances = Balances::new();
    let agreement_id = 1;
    create_agreement(&mut storage, &mut balances, agreement_id, CONSUMER_1, PROVIDER_1, 100, 10);
    let request_index = create_request(&mut storage, CONSUMER_1, agreement_id);

    assert!(respond(
        &mut storage,
        &mut balances,
        PROVIDER_1,
        agreement_id,
        request_index,
        vec![0; 32]
    )
    .is_ok());
    assert_eq!(
        respond(&mut storage, &mut balances, PROVIDER_1, agreement_id, request_index, vec![0; 32]),
        Err(Error::ResponseAlreadyExists)
    );
    assert_eq!(balances.balance(PROVIDER_1), 100);
}

#[test]
fn prepayment_holds_pay_and_royalty_for_all_requests() {
    let plain = AgreementDetails::new(CONSUMER_1, PROVIDER_1, vec![1], 100, 0, 5);
    assert_eq!(
        plain.hold_consumer_prepayment(),
        vec![Payment::Hold { reason: HoldReason::ProviderPayment, who: CONSUMER_1, amount: 500 }]
    );
    let with_royalty = AgreementDetails::new(CONSUMER_1, PROVIDER_1, vec![1], 100, 7, 5);
    assert_eq!(
        with_royalty.hold_consumer_prepayment(),
        vec![
            Payment::Hold { reason: HoldReason::ProviderPayment, who: CONSUMER_1, amount: 500 },
            Payment::Hold { reason: HoldReason::RoyaltyPayment, who: CONSUMER_1, amount: 35 },
        ]
    );
    let huge = AgreementDetails::new(CONSUMER_1, PROVIDER_1, vec![1], Balance::MAX / 2, 0, 3);
    assert_eq!(
        huge.hold_consumer_prepayment(),
        vec![Payment::Hold {
            reason: HoldReason::ProviderPayment,
            who: CONSUMER_1,
            amount: Balance::MAX,
        }]
    );
}

struct Owner(Option<(AccountId, Balance)>);

impl RoyaltyResolver for Owner {
    fn get_royalty(&self, _model_id: &Vec<u8>) -> Option<(AccountId, Balance)> {
        self.0
    }
}

#[test]
fn response_pays_provider_and_owner() {
    let pay = Payment::TransferOnHold {
        reason: HoldReason::ProviderPayment,
        source: CONSUMER_1,
        dest: PROVIDER_1,
        amount: 100,
    };
    let plain = AgreementDetails::new(CONSUMER_1, PROVIDER_1, vec![1], 100, 0, 5);
    assert_eq!(plain.transfer_payments(Some(77)), vec![pay]);
    assert_eq!(plain.transfer_payments_with(&Owner(Some((77, 1000)))), vec![pay]);

    let with_royalty = AgreementDetails::new(CONSUMER_1, PROVIDER_1, vec![1], 100, 7, 5);
    assert_eq!(
        with_royalty.transfer_payments(Some(77)),
        vec![
            pay,
            Payment::TransferOnHold {
                reason: HoldReason::RoyaltyPayment,
                source: CONSUMER_1,
                dest: 77,
                amount: 7,
            },
        ]
    );
    assert_eq!(
        with_royalty.transfer_payments_with(&Owner(Some((77, 1000)))),
        with_royalty.transfer_payments(Some(77))
    );
    assert_eq!(
        with_royalty.transfer_payments_with(&Owner(None)),
        vec![
            pay,
            Payment::Release { reason: HoldReason::RoyaltyPayment, who: CONSUMER_1, amount: 7 },
        ]
    );
}

#[test]
fn requests_are_counted_up_to_the_total() {
    let mut agreement = AgreementDetails::new(CONSUMER_1, PROVIDER_1, vec![1], 100, 0, 2);
    assert!(agreement.is_consumer(&CONSUMER_1));
    assert!(!agreement.is_consumer(&PROVIDER_1));
    assert!(agreement.is_provider(&PROVIDER_1));
    assert!(agreement.request_exists(0));
    assert!(!agreement.request_exists(1));
    assert_eq!(agreement.next_request_index(), Ok(1));
    assert_eq!(agreement.next_request_index(), Ok(2));
    assert_eq!(agreement.next_request_index(), Err(Error::RequestNotAllowed));
    assert_eq!(agreement.requests_count(), 2);
    assert_eq!(agreement.requests_total(), 2);
    assert!(agreement.request_exists(2));
    assert!(!agreement.request_exists(3));
    assert_eq!(agreement.clone(), agreement);
}
