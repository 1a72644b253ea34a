//! Data exchange through the value store of the overlay: a caller's bytes are
//! put under a key, and callers that ask for a key wait for the store's
//! answer.

use crate::key::{bytes_of, RecordKey};
use crate::rpc::worker::{waiters_of, Resolution, ResolutionView};
use crate::rpc::{ServiceMsg, ServiceMsgView};
use crate::table::KeyTable;
use vstd::prelude::*;

verus! {

/// What the value store of the overlay offers.
pub trait NetworkProvider {
    /// Start looking for the value of `key`.
    fn get_value(&self, key: &RecordKey);

    /// Start putting `value` under `key`.
    fn put_value(&self, key: RecordKey, value: Vec<u8>);
}

/// What the value store of the overlay reports, as far as the exchange
/// reads it.
#[derive(Debug, PartialEq, Eq)]
pub enum DhtEvent {
    /// Values were found, each with the key it is stored under.
    ValueFound(Vec<(RecordKey, Vec<u8>)>),
    /// No value was found for the key.
    ValueNotFound(RecordKey),
    /// Anything else: a value was put, or could not be put.
    Other,
}

/// A report of the value store, as plain values.
pub enum DhtEventView {
    ValueFound(Seq<(Seq<u8>, Seq<u8>)>),
    ValueNotFound(Seq<u8>),
    Other,
}

/// The entries of a list of found values, as plain values.
pub open spec fn entries_of(found: Seq<(RecordKey, Vec<u8>)>) -> Seq<(Seq<u8>, Seq<u8>)> {
    Seq::new(found.len(), |i: int| (found[i].0@, found[i].1@))
}

impl View for DhtEvent {
    type V = DhtEventView;

    open spec fn view(&self) -> DhtEventView {
        match *self {
            DhtEvent::ValueFound(found) => DhtEventView::ValueFound(entries_of(found@)),
            DhtEvent::ValueNotFound(key) => DhtEventView::ValueNotFound(key@),
            DhtEvent::Other => DhtEventView::Other,
        }
    }
}

/// One call of a `NetworkProvider`, as a value.
#[derive(Debug, PartialEq, Eq)]
pub enum DhtRequest {
    /// Start putting `value` under `key`.
    PutValue { key: RecordKey, value: Vec<u8> },
    /// Start looking for the value of `key`.
    GetValue { key: RecordKey },
}

/// One call of a `NetworkProvider`, as plain values.
pub enum DhtRequestView {
    PutValue { key: Seq<u8>, value: Seq<u8> },
    GetValue { key: Seq<u8> },
}

impl View for DhtRequest {
    type V = DhtRequestView;

    open spec fn view(&self) -> DhtRequestView {
        match *self {
            DhtRequest::PutValue { key, value } => DhtRequestView::PutValue {
                key: key@,
                value: value@,
            },
            DhtRequest::GetValue { key } => DhtRequestView::GetValue { key: key@ },
        }
    }
}

impl DhtRequest {
    /// Makes the call on `network`.
    pub fn send_to<N: NetworkProvider + ?Sized>(self, network: &N) {
        match self {
            DhtRequest::PutValue { key, value } => network.put_value(key, value),
            DhtRequest::GetValue { key } => network.get_value(&key),
        }
    }
}

/// The callers that wait for `key`, if any, with one more.
pub open spec fn joined<W>(pending: Map<Seq<u8>, Seq<W>>, key: Seq<u8>, sender: W) -> Seq<W> {
    if pending.contains_key(key) {
        pending[key].push(sender)
    } else {
        seq![sender]
    }
}

/// What a message does to the callers that wait, and the call it leads to.
pub open spec fn exchange_message_step<W>(
    pending: Map<Seq<u8>, Seq<W>>,
    msg: ServiceMsgView<W>,
) -> (Map<Seq<u8>, Seq<W>>, DhtRequestView) {
    match msg {
        ServiceMsgView::PutData { key, data } => (
            pending,
            DhtRequestView::PutValue { key, value: data },
        ),
        ServiceMsgView::GetData { key, sender } => (
            pending.insert(key, joined(pending, key, sender)),
            DhtRequestView::GetValue { key },
        ),
    }
}

/// The key that a report of the value store settles, and the answer for the
/// callers that wait for it, if the report settles any.
pub open spec fn settled(event: DhtEventView) -> Option<(Seq<u8>, Option<Seq<u8>>)> {
    match event {
        DhtEventView::ValueFound(found) => if found.len() > 0 {
            Some((found[0].0, Some(found[0].1)))
        } else {
            None
        },
        DhtEventView::ValueNotFound(key) => Some((key, None)),
        DhtEventView::Other => None,
    }
}

/// What a report of the value store does to the callers that wait, and who
/// is answered with what.
pub open spec fn exchange_event_step<W>(pending: Map<Seq<u8>, Seq<W>>, event: DhtEventView) -> (
    Map<Seq<u8>, Seq<W>>,
    Option<ResolutionView<W>>,
) {
    match settled(event) {
        Some((key, result)) => if pending.contains_key(key) {
            (pending.remove(key), Some(ResolutionView { waiters: pending[key], result }))
        } else {
            (pending, None)
        },
        None => (pending, None),
    }
}

/// The exchange's own state. `W` is what a waiting caller is answered
/// through.
pub struct Worker<W> {
    /// Lookups currently in progress.
    pending_lookups: KeyTable<Vec<W>>,
}

impl<W> View for Worker<W> {
    type V = Map<Seq<u8>, Seq<W>>;

    closed spec fn view(&self) -> Map<Seq<u8>, Seq<W>> {
        waiters_of(self.pending_lookups@)
    }
}

impl<W> Worker<W> {
    /// The exchange with no lookup in progress.
    pub fn new() -> (worker: Self)
        ensures
            worker@ == Map::<Seq<u8>, Seq<W>>::empty(),
    {
        let worker = Worker { pending_lookups: KeyTable::new() };
        assert(worker@ =~= Map::<Seq<u8>, Seq<W>>::empty());
        worker
    }

    /// Takes in a message: notes a caller that waits and returns the call
    /// to make on the value store.
    pub fn handle_message(&mut self, msg: ServiceMsg<W>) -> (request: DhtRequest)
        ensures
            final(self)@ == exchange_message_step(old(self)@, msg@).0,
            request@ == exchange_message_step(old(self)@, msg@).1,
    {
        match msg {
            ServiceMsg::PutData { key, data } => DhtRequest::PutValue { key, value: data },
            ServiceMsg::GetData { key, sender } => {
                let request = DhtRequest::GetValue { key: key.clone() };
                let mut waiters = match self.pending_lookups.remove(&key) {
                    Some(waiters) => waiters,
                    None => Vec::new(),
                };
                waiters.push(sender);
                let _ = self.pending_lookups.insert(key, waiters);
                assert(self@ =~= exchange_message_step(old(self)@, msg@).0);
                request
            },
        }
    }

    /// Takes in a report of the value store: the callers that wait for the
    /// key it settles are answered, all with the same.
    pub fn handle_dht_event(&mut self, event: DhtEvent) -> (resolution: Option<Resolution<W>>)
        ensures
            final(self)@ == exchange_event_step(old(self)@, event@).0,
            match resolution {
                Some(resolution) => Some(resolution@),
                None => None,
            } == exchange_event_step(old(self)@, event@).1,
    {
        let (key, result) = match event {
            DhtEvent::ValueFound(mut found) => {
                if found.len() == 0 {
                    return None;
                }
                let ghost first = found@[0];
                let entry = found.swap_remove(0);
                assert(entry == first);
                (entry.0, Some(entry.1))
            },
            DhtEvent::ValueNotFound(key) => (key, None),
            DhtEvent::Other => {
                return None;
            },
        };
        assert(settled(event@) == Some((key@, bytes_of(result))));
        let resolution = match self.pending_lookups.remove(&key) {
            Some(waiters) => Some(Resolution { waiters, result }),
            None => None,
        };
        assert(self@ =~= exchange_event_step(old(self)@, event@).0);
        resolution
    }
}

} // verus!
