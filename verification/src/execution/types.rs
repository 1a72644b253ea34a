//! Agreements and the payments that they lead to.

use crate::key::copy_bytes;
use crate::primitives::{AccountId, Balance, RequestsUsize, RoyaltyResolver};
use vstd::prelude::*;

verus! {

/// The number of an agreement.
pub type AgreementId = u32;

/// Why a request or a response is refused.
#[derive(Debug, Clone, Copy, PartialEq, Eq, Structural)]
pub enum Error {
    /// Agreement is not found.
    AgreementNotFound,
    /// Agreement is invalid.
    AgreementInvalid,
    /// Request is not allowed. E.g. all requests have been used.
    RequestNotAllowed,
    /// Request is not found.
    RequestNotFound,
    /// Response already exists.
    ResponseAlreadyExists,
}

/// What an amount is held for.
#[derive(Debug, Clone, Copy, PartialEq, Eq, Hash, Structural)]
pub enum HoldReason {
    /// The provider's pay.
    ProviderPayment,
    /// The royalty of the model's owner.
    RoyaltyPayment,
}

/// A movement of funds that an agreement asks of the ledger.
#[derive(Debug, Clone, Copy, PartialEq, Eq, Structural)]
pub enum Payment {
    /// Put `amount` of the funds of `who` on hold.
    Hold { reason: HoldReason, who: AccountId, amount: Balance },
    /// Move `amount` of what is held of `source` to `dest`, where it is free.
    TransferOnHold { reason: HoldReason, source: AccountId, dest: AccountId, amount: Balance },
    /// Free `amount` of what is held of `who`.
    Release { reason: HoldReason, who: AccountId, amount: Balance },
}

/// What a consumer and a provider agreed on, and how many of the agreed
/// requests were made.
#[derive(Debug, PartialEq, Eq)]
pub struct AgreementDetails {
    consumer: AccountId,
    provider: AccountId,
    model_id: Vec<u8>,
    price_per_request: Balance,
    royalty_per_request: Balance,
    requests_count: RequestsUsize,
    requests_total: RequestsUsize,
}

/// An agreement, as plain values.
pub struct AgreementView {
    pub consumer: AccountId,
    pub provider: AccountId,
    pub model_id: Seq<u8>,
    pub price_per_request: Balance,
    pub royalty_per_request: Balance,
    pub requests_count: RequestsUsize,
    pub requests_total: RequestsUsize,
}

/// The product of a price and a number of requests, or the largest amount
/// where the product is larger.
pub open spec fn saturating_total(price: Balance, requests: RequestsUsize) -> Balance {
    if price * requests > Balance::MAX {
        Balance::MAX
    } else {
        (price * requests) as Balance
    }
}

impl AgreementView {
    /// The agreement after one more request was made.
    pub open spec fn counted(self) -> AgreementView {
        AgreementView { requests_count: (self.requests_count + 1) as RequestsUsize, ..self }
    }

    /// What is put on hold when the agreement is made: the provider's pay
    /// for all requests and, where there is a royalty, the royalty for all
    /// requests.
    pub open spec fn prepayment(self) -> Seq<Payment> {
        let pay = Payment::Hold {
            reason: HoldReason::ProviderPayment,
            who: self.consumer,
            amount: saturating_total(self.price_per_request, self.requests_total),
        };
        if self.royalty_per_request != 0 {
            seq![
                pay,
                Payment::Hold {
                    reason: HoldReason::RoyaltyPayment,
                    who: self.consumer,
                    amount: saturating_total(self.royalty_per_request, self.requests_total),
                },
            ]
        } else {
            seq![pay]
        }
    }

    /// What is paid for one response: the price to the provider and, where
    /// there is a royalty, the royalty to the owner of the model, or back to
    /// the consumer when the model has no owner.
    pub open spec fn payments(self, owner: Option<AccountId>) -> Seq<Payment> {
        let pay = Payment::TransferOnHold {
            reason: HoldReason::ProviderPayment,
            source: self.consumer,
            dest: self.provider,
            amount: self.price_per_request,
        };
        if self.royalty_per_request != 0 {
            match owner {
                Some(dest) => seq![
                    pay,
                    Payment::TransferOnHold {
                        reason: HoldReason::RoyaltyPayment,
                        source: self.consumer,
                        dest,
                        amount: self.royalty_per_request,
                    },
                ],
                None => seq![
                    pay,
                    Payment::Release {
                        reason: HoldReason::RoyaltyPayment,
                        who: self.consumer,
                        amount: self.royalty_per_request,
                    },
                ],
            }
        } else {
            seq![pay]
        }
    }
}

impl View for AgreementDetails {
    type V = AgreementView;

    closed spec fn view(&self) -> AgreementView {
        AgreementView {
            consumer: self.consumer,
            provider: self.provider,
            model_id: self.model_id@,
            price_per_request: self.price_per_request,
            royalty_per_request: self.royalty_per_request,
            requests_count: self.requests_count,
            requests_total: self.requests_total,
        }
    }
}

impl Clone for AgreementDetails {
    fn clone(&self) -> (copy: Self)
        ensures
            copy@ == self@,
    {
        proof {
            use_type_invariant(self);
        }
        AgreementDetails {
            consumer: self.consumer,
            provider: self.provider,
            model_id: copy_bytes(&self.model_id),
            price_per_request: self.price_per_request,
            royalty_per_request: self.royalty_per_request,
            requests_count: self.requests_count,
            requests_total: self.requests_total,
        }
    }
}

/// `price` times `requests`, or the largest amount where the product is larger.
fn total(price: Balance, requests: RequestsUsize) -> (amount: Balance)
    ensures
        amount == saturating_total(price, requests),
{
    match price.checked_mul(requests as Balance) {
        Some(amount) => amount,
        None => Balance::MAX,
    }
}

impl AgreementDetails {
    #[verifier::type_invariant]
    closed spec fn counts_within_total(&self) -> bool {
        self.requests_count <= self.requests_total
    }

    /// The agreement between `consumer` and `provider` on `requests_total`
    /// requests to `model_id`, none of which was made yet.
    pub fn new(
        consumer: AccountId,
        provider: AccountId,
        model_id: Vec<u8>,
        price_per_request: Balance,
        royalty_per_request: Balance,
        requests_total: RequestsUsize,
    ) -> (agreement: Self)
        ensures
            agreement@ == (AgreementView {
                consumer,
                provider,
                model_id: model_id@,
                price_per_request,
                royalty_per_request,
                requests_count: 0,
                requests_total,
            }),
    {
        AgreementDetails {
            consumer,
            provider,
            model_id,
            price_per_request,
            royalty_per_request,
            requests_count: 0,
            requests_total,
        }
    }

    /// Whether `consumer` is the consumer of the agreement.
    pub fn is_consumer(&self, consumer: &AccountId) -> (is: bool)
        ensures
            is == (self@.consumer == *consumer),
    {
        self.consumer == *consumer
    }

    /// Whether `provider` is the provider of the agreement.
    pub fn is_provider(&self, provider: &AccountId) -> (is: bool)
        ensures
            is == (self@.provider == *provider),
    {
        self.provider == *provider
    }

    /// The consumer of the agreement.
    pub fn consumer(&self) -> (consumer: AccountId)
        ensures
            consumer == self@.consumer,
    {
        self.consumer
    }

    /// The provider of the agreement.
    pub fn provider(&self) -> (provider: AccountId)
        ensures
            provider == self@.provider,
    {
        self.provider
    }

    /// The model that the requests go to.
    pub fn model_id(&self) -> (model_id: &Vec<u8>)
        ensures
            model_id@ == self@.model_id,
    {
        &self.model_id
    }

    /// How many requests were made.
    pub fn requests_count(&self) -> (count: RequestsUsize)
        ensures
            count == self@.requests_count,
            self@.requests_count <= self@.requests_total,
    {
        proof {
            use_type_invariant(self);
        }
        self.requests_count
    }

    /// How many requests were agreed on.
    pub fn requests_total(&self) -> (total: RequestsUsize)
        ensures
            total == self@.requests_total,
    {
        self.requests_total
    }

    /// Counts one more request and returns its index, the first being 1;
    /// refuses when all agreed requests were made.
    pub fn next_request_index(&mut self) -> (index: Result<RequestsUsize, Error>)
        ensures
            old(self)@.requests_count <= old(self)@.requests_total,
            match index {
                Ok(index) => old(self)@.requests_count < old(self)@.requests_total && index
                    == old(self)@.requests_count + 1 && final(self)@ == old(self)@.counted(),
                Err(error) => old(self)@.requests_count == old(self)@.requests_total && error
                    == Error::RequestNotAllowed && final(self)@ == old(self)@,
            },
    {
        proof {
            use_type_invariant(&*self);
        }
        if self.requests_count == self.requests_total {
            Err(Error::RequestNotAllowed)
        } else {
            self.requests_count += 1;
            Ok(self.requests_count)
        }
    }

    /// Whether the request with the given index was made.
    pub fn request_exists(&self, request_index: RequestsUsize) -> (made: bool)
        ensures
            made == (request_index <= self@.requests_count),
    {
        request_index <= self.requests_count
    }

    /// What is to be put on hold when the agreement is made, in order.
    pub fn hold_consumer_prepayment(&self) -> (holds: Vec<Payment>)
        ensures
            holds@ == self@.prepayment(),
    {
        let mut holds: Vec<Payment> = Vec::new();
        holds.push(
            Payment::Hold {
                reason: HoldReason::ProviderPayment,
                who: self.consumer,
                amount: total(self.price_per_request, self.requests_total),
            },
        );
        if self.royalty_per_request != 0 {
            holds.push(
                Payment::Hold {
                    reason: HoldReason::RoyaltyPayment,
                    who: self.consumer,
                    amount: total(self.royalty_per_request, self.requests_total),
                },
            );
        }
        assert(holds@ =~= self@.prepayment());
        holds
    }

    /// What is to be paid for one response, in order, with the owner of the
    /// model as `resolver` names it. The resolver is asked only where a
    /// royalty is due.
    pub fn transfer_payments_with<R: RoyaltyResolver>(&self, resolver: &R) -> (payments: Vec<
        Payment,
    >)
        ensures
            exists|owner: Option<AccountId>| payments@ == self@.payments(owner),
    {
        let owner = if self.royalty_per_request != 0 {
            match resolver.get_royalty(&self.model_id) {
                Some(royalty) => Some(royalty.0),
                None => None,
            }
        } else {
            None
        };
        self.transfer_payments(owner)
    }

    /// What is to be paid for one response, in order. `owner` is who owns
    /// the model, if anyone does.
    pub fn transfer_payments(&self, owner: Option<AccountId>) -> (payments: Vec<Payment>)
        ensures
            payments@ == self@.payments(owner),
    {
        let mut payments: Vec<Payment> = Vec::new();
        payments.push(
            Payment::TransferOnHold {
                reason: HoldReason::ProviderPayment,
                source: self.consumer,
                dest: self.provider,
                amount: self.price_per_request,
            },
        );
        if self.royalty_per_request != 0 {
            match owner {
                Some(dest) => {
                    payments.push(
                        Payment::TransferOnHold {
                            reason: HoldReason::RoyaltyPayment,
                            source: self.consumer,
                            dest,
                            amount: self.royalty_per_request,
                        },
                    );
                },
                None => {
                    payments.push(
                        Payment::Release {
                            reason: HoldReason::RoyaltyPayment,
                            who: self.consumer,
                            amount: self.royalty_per_request,
                        },
                    );
                },
            }
        }
        assert(payments@ =~= self@.payments(owner));
        payments
    }
}

} // verus!
