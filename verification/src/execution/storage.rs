//! The tables of the execution of agreements.

use crate::execution::types::{AgreementDetails, AgreementId, AgreementView, Error};
use crate::primitives::{AccountId, RequestsUsize};
use crate::table::Table;
use std::collections::HashMap;
use vstd::prelude::*;

verus! {

broadcast use vstd::std_specs::hash::group_hash_axioms;

/// The tables of the execution of agreements, as plain values.
pub struct StorageView {
    /// The agreements that exist.
    pub agreements: Map<AgreementId, AgreementView>,
    /// Which consumer has which agreement.
    pub consumer_agreements: Set<(AccountId, AgreementId)>,
    /// Which provider has which agreement.
    pub provider_agreements: Set<(AccountId, AgreementId)>,
    /// The content of each request, by agreement and index.
    pub requests: Map<(AgreementId, RequestsUsize), Seq<u8>>,
    /// The content of each response, by agreement and index of the request.
    pub responses: Map<(AgreementId, RequestsUsize), Seq<u8>>,
}

/// The agreements of a table, as plain values.
pub open spec fn agreements_of(table: Map<AgreementId, AgreementDetails>) -> Map<
    AgreementId,
    AgreementView,
> {
    Map::new(|id: AgreementId| table.contains_key(id), |id: AgreementId| table[id]@)
}

/// The pairs of an account and an agreement that a table holds.
pub open spec fn parties_of(table: Map<(u64, u64), ()>) -> Set<(AccountId, AgreementId)> {
    Set::new(|pair: (AccountId, AgreementId)| table.contains_key((pair.0, pair.1 as u64)))
}

/// The contents of a table, by agreement and index.
pub open spec fn contents_of(table: Map<(u64, u64), Vec<u8>>) -> Map<
    (AgreementId, RequestsUsize),
    Seq<u8>,
> {
    Map::new(
        |key: (AgreementId, RequestsUsize)| table.contains_key((key.0 as u64, key.1 as u64)),
        |key: (AgreementId, RequestsUsize)| table[(key.0 as u64, key.1 as u64)]@,
    )
}

/// The tables after an agreement was recorded under a number, for both of
/// its parties.
pub open spec fn agreement_inserted(
    tables: StorageView,
    agreement_id: AgreementId,
    agreement: AgreementView,
) -> StorageView {
    StorageView {
        agreements: tables.agreements.insert(agreement_id, agreement),
        consumer_agreements: tables.consumer_agreements.insert((agreement.consumer, agreement_id)),
        provider_agreements: tables.provider_agreements.insert((agreement.provider, agreement_id)),
        ..tables
    }
}

/// The tables of the execution of agreements.
pub struct Storage {
    agreements: HashMap<AgreementId, AgreementDetails>,
    consumer_agreements: Table<(u64, u64), ()>,
    provider_agreements: Table<(u64, u64), ()>,
    requests: Table<(u64, u64), Vec<u8>>,
    responses: Table<(u64, u64), Vec<u8>>,
}

impl View for Storage {
    type V = StorageView;

    closed spec fn view(&self) -> StorageView {
        StorageView {
            agreements: agreements_of(self.agreements@),
            consumer_agreements: parties_of(self.consumer_agreements@),
            provider_agreements: parties_of(self.provider_agreements@),
            requests: contents_of(self.requests@),
            responses: contents_of(self.responses@),
        }
    }
}

impl Storage {
    /// The tables before any agreement was made.
    pub fn new() -> (storage: Self)
        ensures
            storage@ == (StorageView {
                agreements: Map::empty(),
                consumer_agreements: Set::empty(),
                provider_agreements: Set::empty(),
                requests: Map::empty(),
                responses: Map::empty(),
            }),
    {
        let storage = Storage {
            agreements: HashMap::new(),
            consumer_agreements: Table::new(),
            provider_agreements: Table::new(),
            requests: Table::new(),
            responses: Table::new(),
        };
        assert(storage@.agreements =~= Map::empty());
        assert(storage@.consumer_agreements =~= Set::empty());
        assert(storage@.provider_agreements =~= Set::empty());
        assert(storage@.requests =~= Map::empty());
        assert(storage@.responses =~= Map::empty());
        storage
    }

    /// The agreement with the given number, if it exists.
    pub fn agreement(&self, agreement_id: AgreementId) -> (agreement: Option<&AgreementDetails>)
        ensures
            match agreement {
                Some(details) => self@.agreements.contains_key(agreement_id) && details@
                    == self@.agreements[agreement_id],
                None => !self@.agreements.contains_key(agreement_id),
            },
    {
        self.agreements.get(&agreement_id)
    }

    /// Counts one more request of `consumer` under an agreement and
    /// returns its index; refuses where there is no such agreement, where
    /// it has another consumer, and where no request is left.
    pub fn count_request(&mut self, consumer: AccountId, agreement_id: AgreementId) -> (index:
        Result<RequestsUsize, Error>)
        ensures
            match index {
                Ok(index) => {
                    &&& old(self)@.agreements.contains_key(agreement_id)
                    &&& old(self)@.agreements[agreement_id].consumer == consumer
                    &&& old(self)@.agreements[agreement_id].requests_count < old(
                        self,
                    )@.agreements[agreement_id].requests_total
                    &&& index == old(self)@.agreements[agreement_id].requests_count + 1
                    &&& final(self)@ == (StorageView {
                        agreements: old(self)@.agreements.insert(
                            agreement_id,
                            old(self)@.agreements[agreement_id].counted(),
                        ),
                        ..old(self)@
                    })
                },
                Err(error) => {
                    &&& final(self)@ == old(self)@
                    &&& if !old(self)@.agreements.contains_key(agreement_id) {
                        error == Error::AgreementNotFound
                    } else if old(self)@.agreements[agreement_id].consumer != consumer {
                        error == Error::AgreementInvalid
                    } else {
                        &&& error == Error::RequestNotAllowed
                        &&& old(self)@.agreements[agreement_id].requests_count == old(
                            self,
                        )@.agreements[agreement_id].requests_total
                    }
                },
            },
    {
        let mut agreement = match self.agreements.remove(&agreement_id) {
            Some(agreement) => agreement,
            None => {
                assert(self@.agreements =~= old(self)@.agreements);
                return Err(Error::AgreementNotFound);
            },
        };
        let ghost before = agreement@;
        let index = if agreement.is_consumer(&consumer) {
            agreement.next_request_index()
        } else {
            Err(Error::AgreementInvalid)
        };
        let _ = self.agreements.insert(agreement_id, agreement);
        proof {
            if index is Ok {
                assert(self@.agreements =~= old(self)@.agreements.insert(
                    agreement_id,
                    before.counted(),
                ));
            } else {
                assert(self@.agreements =~= old(self)@.agreements);
            }
        }
        index
    }

    /// Records the content of a request.
    pub fn insert_request(
        &mut self,
        agreement_id: AgreementId,
        request_index: RequestsUsize,
        content_id: Vec<u8>,
    )
        ensures
            final(self)@ == (StorageView {
                requests: old(self)@.requests.insert((agreement_id, request_index), content_id@),
                ..old(self)@
            }),
    {
        let _ = self.requests.insert((agreement_id as u64, request_index as u64), content_id);
        assert(self@.requests =~= old(self)@.requests.insert(
            (agreement_id, request_index),
            content_id@,
        ));
    }

    /// Records the content of the response to a request.
    pub fn insert_response(
        &mut self,
        agreement_id: AgreementId,
        request_index: RequestsUsize,
        content_id: Vec<u8>,
    )
        ensures
            final(self)@ == (StorageView {
                responses: old(self)@.responses.insert((agreement_id, request_index), content_id@),
                ..old(self)@
            }),
    {
        let _ = self.responses.insert((agreement_id as u64, request_index as u64), content_id);
        assert(self@.responses =~= old(self)@.responses.insert(
            (agreement_id, request_index),
            content_id@,
        ));
    }

    /// Whether the tables note that `consumer` has the agreement.
    pub fn notes_consumer(&self, consumer: AccountId, agreement_id: AgreementId) -> (noted: bool)
        ensures
            noted == self@.consumer_agreements.contains((consumer, agreement_id)),
    {
        self.consumer_agreements.contains_key(&(consumer, agreement_id as u64))
    }

    /// Whether the tables note that `provider` has the agreement.
    pub fn notes_provider(&self, provider: AccountId, agreement_id: AgreementId) -> (noted: bool)
        ensures
            noted == self@.provider_agreements.contains((provider, agreement_id)),
    {
        self.provider_agreements.contains_key(&(provider, agreement_id as u64))
    }

    /// The content of a request, if the request was made.
    pub fn request(&self, agreement_id: AgreementId, request_index: RequestsUsize) -> (content:
        Option<&Vec<u8>>)
        ensures
            match content {
                Some(content_id) => self@.requests.contains_key((agreement_id, request_index))
                    && content_id@ == self@.requests[(agreement_id, request_index)],
                None => !self@.requests.contains_key((agreement_id, request_index)),
            },
    {
        self.requests.get(&(agreement_id as u64, request_index as u64))
    }

    /// The content of the response to a request, if there is one.
    pub fn response(&self, agreement_id: AgreementId, request_index: RequestsUsize) -> (content:
        Option<&Vec<u8>>)
        ensures
            match content {
                Some(content_id) => self@.responses.contains_key((agreement_id, request_index))
                    && content_id@ == self@.responses[(agreement_id, request_index)],
                None => !self@.responses.contains_key((agreement_id, request_index)),
            },
    {
        self.responses.get(&(agreement_id as u64, request_index as u64))
    }
}

/// The agreements that exist.
pub struct Agreement;

impl Agreement {
    /// Records an agreement under a number, for both of its parties, in
    /// place of an agreement that had the number before.
    pub fn insert(storage: &mut Storage, agreement_id: AgreementId, agreement: AgreementDetails)
        ensures
            final(storage)@ == agreement_inserted(old(storage)@, agreement_id, agreement@),
    {
        let _ = storage.consumer_agreements.insert(
            (agreement.consumer(), agreement_id as u64),
            (),
        );
        let _ = storage.provider_agreements.insert(
            (agreement.provider(), agreement_id as u64),
            (),
        );
        let _ = storage.agreements.insert(agreement_id, agreement);
        let ghost target = agreement_inserted(old(storage)@, agreement_id, agreement@);
        assert(storage@.agreements =~= target.agreements);
        assert(storage@.consumer_agreements =~= target.consumer_agreements);
        assert(storage@.provider_agreements =~= target.provider_agreements);
    }
}

/// The responses that exist.
pub struct Response;

impl Response {
    /// Whether the request was responded to.
    pub fn contains(storage: &Storage, agreement_id: AgreementId, request_index: RequestsUsize) -> (found:
        bool)
        ensures
            found == storage@.responses.contains_key((agreement_id, request_index)),
    {
        storage.responses.contains_key(&(agreement_id as u64, request_index as u64))
    }
}

} // verus!
