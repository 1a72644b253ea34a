//! What the parties of an agreement can do.

use crate::execution::storage::{
    agreement_inserted, Agreement, Response, Storage, StorageView,
};
use crate::execution::types::{AgreementDetails, AgreementId, Error, Payment};
use crate::key::copy_bytes;
use crate::primitives::{AccountId, RequestsUsize};
use vstd::prelude::*;

verus! {

/// What happened to an agreement.
#[derive(Debug, PartialEq, Eq)]
pub enum Event {
    /// A new agreement has been created.
    AgreementCreated { agreement_id: AgreementId },
    /// A request has been created.
    RequestCreated { agreement_id: AgreementId, request_index: RequestsUsize, content_id: Vec<u8> },
    /// A response has been created.
    ResponseCreated {
        agreement_id: AgreementId,
        request_index: RequestsUsize,
        content_id: Vec<u8>,
    },
}

/// An event of an agreement, as plain values.
pub enum EventView {
    AgreementCreated { agreement_id: AgreementId },
    RequestCreated { agreement_id: AgreementId, request_index: RequestsUsize, content_id: Seq<u8> },
    ResponseCreated {
        agreement_id: AgreementId,
        request_index: RequestsUsize,
        content_id: Seq<u8>,
    },
}

impl View for Event {
    type V = EventView;

    open spec fn view(&self) -> EventView {
        match *self {
            Event::AgreementCreated { agreement_id } => EventView::AgreementCreated {
                agreement_id,
            },
            Event::RequestCreated { agreement_id, request_index, content_id } => {
                EventView::RequestCreated { agreement_id, request_index, content_id: content_id@ }
            },
            Event::ResponseCreated { agreement_id, request_index, content_id } => {
                EventView::ResponseCreated { agreement_id, request_index, content_id: content_id@ }
            },
        }
    }
}

/// Why a request of `consumer` under an agreement is refused, if it is.
pub open spec fn request_refusal(
    tables: StorageView,
    consumer: AccountId,
    agreement_id: AgreementId,
) -> Option<Error> {
    if !tables.agreements.contains_key(agreement_id) {
        Some(Error::AgreementNotFound)
    } else if tables.agreements[agreement_id].consumer != consumer {
        Some(Error::AgreementInvalid)
    } else if tables.agreements[agreement_id].requests_count
        == tables.agreements[agreement_id].requests_total {
        Some(Error::RequestNotAllowed)
    } else {
        None
    }
}

/// The tables after one more request was made under an agreement.
pub open spec fn request_created(
    tables: StorageView,
    agreement_id: AgreementId,
    content_id: Seq<u8>,
) -> StorageView {
    let agreement = tables.agreements[agreement_id].counted();
    StorageView {
        agreements: tables.agreements.insert(agreement_id, agreement),
        requests: tables.requests.insert((agreement_id, agreement.requests_count), content_id),
        ..tables
    }
}

/// Why a response of `provider` to a request is refused, if it is.
pub open spec fn response_refusal(
    tables: StorageView,
    provider: AccountId,
    agreement_id: AgreementId,
    request_index: RequestsUsize,
) -> Option<Error> {
    if !tables.agreements.contains_key(agreement_id) {
        Some(Error::AgreementNotFound)
    } else if tables.agreements[agreement_id].provider != provider {
        Some(Error::AgreementInvalid)
    } else if request_index > tables.agreements[agreement_id].requests_count {
        Some(Error::RequestNotFound)
    } else if tables.responses.contains_key((agreement_id, request_index)) {
        Some(Error::ResponseAlreadyExists)
    } else {
        None
    }
}

/// The tables after a request was responded to.
pub open spec fn response_created(
    tables: StorageView,
    agreement_id: AgreementId,
    request_index: RequestsUsize,
    content_id: Seq<u8>,
) -> StorageView {
    StorageView {
        responses: tables.responses.insert((agreement_id, request_index), content_id),
        ..tables
    }
}

/// The execution of agreements.
pub struct Pallet;

impl Pallet {
    /// Records an agreement whose prepayment is on hold, under the number
    /// of the order that led to it.
    pub fn create_agreement(
        storage: &mut Storage,
        order_id: AgreementId,
        agreement: AgreementDetails,
    ) -> (event: Event)
        ensures
            final(storage)@ == agreement_inserted(old(storage)@, order_id, agreement@),
            event@ == (EventView::AgreementCreated { agreement_id: order_id }),
    {
        Agreement::insert(storage, order_id, agreement);
        Event::AgreementCreated { agreement_id: order_id }
    }

    /// Executed by the consumer of an agreement to make the next request,
    /// while requests are left.
    pub fn request_create(
        storage: &mut Storage,
        consumer: AccountId,
        agreement_id: AgreementId,
        content_id: Vec<u8>,
    ) -> (result: Result<Event, Error>)
        ensures
            match request_refusal(old(storage)@, consumer, agreement_id) {
                Some(error) => result == Err::<Event, Error>(error) && final(storage)@ == old(
                    storage,
                )@,
                None => {
                    &&& result is Ok
                    &&& result->Ok_0@ == (EventView::RequestCreated {
                        agreement_id,
                        request_index: (old(storage)@.agreements[agreement_id].requests_count
                            + 1) as RequestsUsize,
                        content_id: content_id@,
                    })
                    &&& final(storage)@ == request_created(old(storage)@, agreement_id, content_id@)
                },
            },
    {
        match storage.count_request(consumer, agreement_id) {
            Ok(request_index) => {
                let event = Event::RequestCreated {
                    agreement_id,
                    request_index,
                    content_id: copy_bytes(&content_id),
                };
                storage.insert_request(agreement_id, request_index, content_id);
                Ok(event)
            },
            Err(error) => Err(error),
        }
    }

    /// Whether `provider` may respond to a request under an agreement, and
    /// if so, what is to be paid for the response. `owner` is who owns the
    /// model of the agreement, if anyone does.
    pub fn response_payments(
        storage: &Storage,
        provider: AccountId,
        agreement_id: AgreementId,
        request_index: RequestsUsize,
        owner: Option<AccountId>,
    ) -> (result: Result<Vec<Payment>, Error>)
        ensures
            match response_refusal(storage@, provider, agreement_id, request_index) {
                Some(error) => result == Err::<Vec<Payment>, Error>(error),
                None => result is Ok && result->Ok_0@ == storage@.agreements[agreement_id].payments(
                    owner,
                ),
            },
    {
        let agreement = match storage.agreement(agreement_id) {
            Some(agreement) => agreement,
            None => {
                return Err(Error::AgreementNotFound);
            },
        };
        if !agreement.is_provider(&provider) {
            return Err(Error::AgreementInvalid);
        }
        if !agreement.request_exists(request_index) {
            return Err(Error::RequestNotFound);
        }
        if Response::contains(storage, agreement_id, request_index) {
            return Err(Error::ResponseAlreadyExists);
        }
        Ok(agreement.transfer_payments(owner))
    }

    /// Records the response to a request, once it was paid for.
    pub fn response_create(
        storage: &mut Storage,
        agreement_id: AgreementId,
        request_index: RequestsUsize,
        content_id: Vec<u8>,
    ) -> (event: Event)
        ensures
            final(storage)@ == response_created(
                old(storage)@,
                agreement_id,
                request_index,
                content_id@,
            ),
            event@ == (EventView::ResponseCreated {
                agreement_id,
                request_index,
                content_id: content_id@,
            }),
    {
        let event = Event::ResponseCreated {
            agreement_id,
            request_index,
            content_id: copy_bytes(&content_id),
        };
        storage.insert_response(agreement_id, request_index, content_id);
        event
    }
}

} // verus!
