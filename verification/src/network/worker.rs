//! The transfer worker as a state machine: each command and each overlay event
//! changes its tables and yields the actions to perform.

use crate::key::{bytes_of, copy_bytes, PeerId, PeerSet, RecordKey};
use crate::network::behaviour::{DataRequest, DataResponse};
use crate::network::store::{file_name, file_name_of};
use crate::network::{ServiceMsg, ServiceMsgView};
use std::collections::HashMap;
use vstd::prelude::*;

verus! {

broadcast use vstd::std_specs::hash::group_hash_axioms;

/// What the transfer worker tells its subscribers.
#[derive(Debug, PartialEq, Eq)]
pub enum Event {
    /// The announcement of `key` went through.
    StartProviding { key: RecordKey },
    /// The announcement of `key` timed out.
    StartProvidingFailed { key: RecordKey },
    /// Discovery reported these providers of `key`.
    FoundProviders { key: RecordKey, providers: PeerSet },
    /// Discovery of the providers of `key` timed out.
    FoundProvidersFailed { key: RecordKey },
    /// `peer` handed over the bytes of `key`.
    DataReceived { key: RecordKey, peer: PeerId, data: Vec<u8> },
    /// The bytes of `key` could not be had from `peer`.
    DataReceivedFailed { key: RecordKey, peer: PeerId },
}

/// An event of the transfer worker, as plain values.
pub enum EventView {
    StartProviding { key: Seq<u8> },
    StartProvidingFailed { key: Seq<u8> },
    FoundProviders { key: Seq<u8>, providers: Seq<Seq<u8>> },
    FoundProvidersFailed { key: Seq<u8> },
    DataReceived { key: Seq<u8>, peer: Seq<u8>, data: Seq<u8> },
    DataReceivedFailed { key: Seq<u8>, peer: Seq<u8> },
}

impl View for Event {
    type V = EventView;

    open spec fn view(&self) -> EventView {
        match *self {
            Event::StartProviding { key } => EventView::StartProviding { key: key@ },
            Event::StartProvidingFailed { key } => EventView::StartProvidingFailed { key: key@ },
            Event::FoundProviders { key, providers } => EventView::FoundProviders {
                key: key@,
                providers: providers@,
            },
            Event::FoundProvidersFailed { key } => EventView::FoundProvidersFailed { key: key@ },
            Event::DataReceived { key, peer, data } => EventView::DataReceived {
                key: key@,
                peer: peer@,
                data: data@,
            },
            Event::DataReceivedFailed { key, peer } => EventView::DataReceivedFailed {
                key: key@,
                peer: peer@,
            },
        }
    }
}

impl Clone for Event {
    fn clone(&self) -> (copy: Self)
        ensures
            copy@ == self@,
    {
        match self {
            Event::StartProviding { key } => Event::StartProviding { key: key.clone() },
            Event::StartProvidingFailed { key } => Event::StartProvidingFailed {
                key: key.clone(),
            },
            Event::FoundProviders { key, providers } => Event::FoundProviders {
                key: key.clone(),
                providers: providers.clone(),
            },
            Event::FoundProvidersFailed { key } => Event::FoundProvidersFailed {
                key: key.clone(),
            },
            Event::DataReceived { key, peer, data } => Event::DataReceived {
                key: key.clone(),
                peer: peer.clone(),
                data: copy_bytes(data),
            },
            Event::DataReceivedFailed { key, peer } => Event::DataReceivedFailed {
                key: key.clone(),
                peer: peer.clone(),
            },
        }
    }
}

/// What the overlay reports to the transfer worker, as far as the worker
/// reads it.
#[derive(Debug, PartialEq, Eq)]
pub enum SwarmEvent {
    /// The announcement of `key` was stored by the overlay.
    ProvidingStarted { key: RecordKey },
    /// The announcement of `key` timed out.
    ProvidingTimedOut { key: RecordKey },
    /// The discovery query `query_id` reported providers of `key`.
    ProvidersFound { query_id: u64, key: RecordKey, providers: PeerSet },
    /// The discovery query `query_id` ended and reported no more providers.
    ProvidersFinished { query_id: u64 },
    /// The discovery query `query_id`, for `key`, timed out.
    ProvidersTimedOut { query_id: u64, key: RecordKey },
    /// A remote peer asks for the bytes of a key.
    Request { request: DataRequest },
    /// The answer to the outbound request `request_id` arrived.
    Response { request_id: u64, response: DataResponse },
    /// The outbound request `request_id` failed.
    OutboundFailure { request_id: u64 },
    /// Anything else: other discovery events, a response that was sent, a
    /// new listen address, a connection that opened, closed or failed.
    Other,
}

/// A report of the overlay, as plain values.
pub enum SwarmEventView {
    ProvidingStarted { key: Seq<u8> },
    ProvidingTimedOut { key: Seq<u8> },
    ProvidersFound { query_id: u64, key: Seq<u8>, providers: Seq<Seq<u8>> },
    ProvidersFinished { query_id: u64 },
    ProvidersTimedOut { query_id: u64, key: Seq<u8> },
    Request { key: Seq<u8> },
    Response { request_id: u64, data: Seq<u8> },
    OutboundFailure { request_id: u64 },
    Other,
}

impl View for SwarmEvent {
    type V = SwarmEventView;

    open spec fn view(&self) -> SwarmEventView {
        match *self {
            SwarmEvent::ProvidingStarted { key } => SwarmEventView::ProvidingStarted { key: key@ },
            SwarmEvent::ProvidingTimedOut { key } => SwarmEventView::ProvidingTimedOut {
                key: key@,
            },
            SwarmEvent::ProvidersFound { query_id, key, providers } => {
                SwarmEventView::ProvidersFound { query_id, key: key@, providers: providers@ }
            },
            SwarmEvent::ProvidersFinished { query_id } => SwarmEventView::ProvidersFinished {
                query_id,
            },
            SwarmEvent::ProvidersTimedOut { query_id, key } => SwarmEventView::ProvidersTimedOut {
                query_id,
                key: key@,
            },
            SwarmEvent::Request { request } => SwarmEventView::Request { key: request.key@ },
            SwarmEvent::Response { request_id, response } => SwarmEventView::Response {
                request_id,
                data: response.data@,
            },
            SwarmEvent::OutboundFailure { request_id } => SwarmEventView::OutboundFailure {
                request_id,
            },
            SwarmEvent::Other => SwarmEventView::Other,
        }
    }
}

/// What the transfer worker wants done after a command or a report.
#[derive(Debug, PartialEq, Eq)]
pub enum Action {
    /// Write `data` to the file `file_name` of the content store.
    Save { file_name: String, data: Vec<u8> },
    /// Announce to the overlay that this node provides `key`.
    StartProviding { key: RecordKey },
    /// Ask the overlay for the providers of `key` and hand the identifier
    /// of the query, with `key`, to `NetworkWorker::query_started`.
    GetProviders { key: RecordKey },
    /// Finish the discovery query whose report is being handled.
    FinishQuery,
    /// Read the file `file_name` of the content store and hand the outcome,
    /// with `key` and `peer`, to `NetworkWorker::data_loaded`.
    Load { file_name: String, key: RecordKey, peer: PeerId },
    /// Read the file `file_name` of the content store and answer the request
    /// that is being handled with what `NetworkWorker::respond` makes of the
    /// outcome.
    Serve { file_name: String },
    /// Send `request` to `peer` and hand the identifier of the request, with
    /// `key` and `peer`, to `NetworkWorker::request_sent`.
    SendRequest { key: RecordKey, peer: PeerId, request: DataRequest },
    /// Tell `event` to every subscriber.
    Emit { event: Event },
}

/// An action of the transfer worker, as plain values.
pub enum ActionView {
    Save { file_name: Seq<char>, data: Seq<u8> },
    StartProviding { key: Seq<u8> },
    GetProviders { key: Seq<u8> },
    FinishQuery,
    Load { file_name: Seq<char>, key: Seq<u8>, peer: Seq<u8> },
    Serve { file_name: Seq<char> },
    SendRequest { key: Seq<u8>, peer: Seq<u8>, request_key: Seq<u8> },
    Emit { event: EventView },
}

impl View for Action {
    type V = ActionView;

    open spec fn view(&self) -> ActionView {
        match *self {
            Action::Save { file_name, data } => ActionView::Save {
                file_name: file_name@,
                data: data@,
            },
            Action::StartProviding { key } => ActionView::StartProviding { key: key@ },
            Action::GetProviders { key } => ActionView::GetProviders { key: key@ },
            Action::FinishQuery => ActionView::FinishQuery,
            Action::Load { file_name, key, peer } => ActionView::Load {
                file_name: file_name@,
                key: key@,
                peer: peer@,
            },
            Action::Serve { file_name } => ActionView::Serve { file_name: file_name@ },
            Action::SendRequest { key, peer, request } => ActionView::SendRequest {
                key: key@,
                peer: peer@,
                request_key: request.key@,
            },
            Action::Emit { event } => ActionView::Emit { event: event@ },
        }
    }
}

/// A list of actions, as plain values.
pub open spec fn actions_of(actions: Seq<Action>) -> Seq<ActionView> {
    Seq::new(actions.len(), |i: int| actions[i]@)
}

/// The state of the transfer worker, as plain values.
pub struct WorkerView<S> {
    /// The identifier of the local node.
    pub local_peer_id: Seq<u8>,
    /// The subscribers, in the order in which they registered.
    pub event_sender: Seq<S>,
    /// The outbound requests that are neither answered nor failed: for each
    /// identifier the key that was asked for and the peer that was asked.
    pub pending_request_file: Map<u64, (Seq<u8>, Seq<u8>)>,
    /// The discovery queries of which nothing was told yet: for each
    /// identifier the key whose providers are looked for.
    pub pending_queries: Map<u64, Seq<u8>>,
}

/// What a command does to the transfer worker, and the actions it yields.
pub open spec fn message_step<S>(state: WorkerView<S>, msg: ServiceMsgView<S>) -> (
    WorkerView<S>,
    Seq<ActionView>,
) {
    match msg {
        ServiceMsgView::EventStream { sender } => (
            WorkerView { event_sender: state.event_sender.push(sender), ..state },
            Seq::empty(),
        ),
        ServiceMsgView::StartProviding { key, data } => (
            state,
            seq![
                ActionView::Save { file_name: file_name_of(key), data },
                ActionView::StartProviding { key },
            ],
        ),
        ServiceMsgView::FindFirstProvider { key } => (state, seq![ActionView::GetProviders { key }]),
        ServiceMsgView::GetData { key, peer } => if peer == state.local_peer_id {
            (state, seq![ActionView::Load { file_name: file_name_of(key), key, peer }])
        } else {
            (state, seq![ActionView::SendRequest { key, peer, request_key: key }])
        },
    }
}

/// What a report of the overlay does to the transfer worker, and the actions
/// it yields.
pub open spec fn swarm_step<S>(state: WorkerView<S>, event: SwarmEventView) -> (
    WorkerView<S>,
    Seq<ActionView>,
) {
    match event {
        SwarmEventView::ProvidingStarted { key } => (
            state,
            seq![ActionView::Emit { event: EventView::StartProviding { key } }],
        ),
        SwarmEventView::ProvidingTimedOut { key } => (
            state,
            seq![ActionView::Emit { event: EventView::StartProvidingFailed { key } }],
        ),
        SwarmEventView::ProvidersFound { query_id, key, providers } => if state.pending_queries.contains_key(
            query_id,
        ) {
            (
                WorkerView { pending_queries: state.pending_queries.remove(query_id), ..state },
                seq![
                    ActionView::Emit { event: EventView::FoundProviders { key, providers } },
                    ActionView::FinishQuery,
                ],
            )
        } else {
            (state, Seq::empty())
        },
        SwarmEventView::ProvidersFinished { query_id } => if state.pending_queries.contains_key(
            query_id,
        ) {
            (
                WorkerView { pending_queries: state.pending_queries.remove(query_id), ..state },
                seq![
                    ActionView::Emit {
                        event: EventView::FoundProviders {
                            key: state.pending_queries[query_id],
                            providers: Seq::empty(),
                        },
                    },
                ],
            )
        } else {
            (state, Seq::empty())
        },
        SwarmEventView::ProvidersTimedOut { query_id, key } => if state.pending_queries.contains_key(
            query_id,
        ) {
            (
                WorkerView { pending_queries: state.pending_queries.remove(query_id), ..state },
                seq![ActionView::Emit { event: EventView::FoundProvidersFailed { key } }],
            )
        } else {
            (state, Seq::empty())
        },
        SwarmEventView::Request { key } => (
            state,
            seq![ActionView::Serve { file_name: file_name_of(key) }],
        ),
        SwarmEventView::Response { request_id, data } => if state.pending_request_file.contains_key(
            request_id,
        ) {
            let (key, peer) = state.pending_request_file[request_id];
            (
                WorkerView {
                    pending_request_file: state.pending_request_file.remove(request_id),
                    ..state
                },
                seq![ActionView::Emit { event: EventView::DataReceived { key, peer, data } }],
            )
        } else {
            (state, Seq::empty())
        },
        SwarmEventView::OutboundFailure { request_id } => if state.pending_request_file.contains_key(
            request_id,
        ) {
            let (key, peer) = state.pending_request_file[request_id];
            (
                WorkerView {
                    pending_request_file: state.pending_request_file.remove(request_id),
                    ..state
                },
                seq![ActionView::Emit { event: EventView::DataReceivedFailed { key, peer } }],
            )
        } else {
            (state, Seq::empty())
        },
        SwarmEventView::Other => (state, Seq::empty()),
    }
}

/// The event that tells how reading the local store went for `key`.
pub open spec fn loaded_event(key: Seq<u8>, peer: Seq<u8>, loaded: Option<Seq<u8>>) -> EventView {
    match loaded {
        Some(data) => EventView::DataReceived { key, peer, data },
        None => EventView::DataReceivedFailed { key, peer },
    }
}

/// The outstanding requests of a table, as plain values.
pub open spec fn outstanding_of(table: Map<u64, (RecordKey, PeerId)>) -> Map<
    u64,
    (Seq<u8>, Seq<u8>),
> {
    Map::new(|id: u64| table.contains_key(id), |id: u64| (table[id].0@, table[id].1@))
}

/// The discovery queries of a table, as plain values.
pub open spec fn queries_of(table: Map<u64, RecordKey>) -> Map<u64, Seq<u8>> {
    Map::new(|id: u64| table.contains_key(id), |id: u64| table[id]@)
}

/// The transfer worker's own state. `S` is the sending end of a subscriber's
/// channel.
pub struct NetworkWorker<S> {
    local_peer_id: PeerId,
    event_sender: Vec<S>,
    pending_request_file: HashMap<u64, (RecordKey, PeerId)>,
    pending_queries: HashMap<u64, RecordKey>,
}

impl<S> View for NetworkWorker<S> {
    type V = WorkerView<S>;

    closed spec fn view(&self) -> WorkerView<S> {
        WorkerView {
            local_peer_id: self.local_peer_id@,
            event_sender: self.event_sender@,
            pending_request_file: outstanding_of(self.pending_request_file@),
            pending_queries: queries_of(self.pending_queries@),
        }
    }
}

impl<S> NetworkWorker<S> {
    /// The worker of the node `local_peer_id`, with no subscriber, no
    /// outstanding request and no discovery query.
    pub fn new(local_peer_id: PeerId) -> (worker: Self)
        ensures
            worker@ == (WorkerView::<S> {
                local_peer_id: local_peer_id@,
                event_sender: Seq::empty(),
                pending_request_file: Map::empty(),
                pending_queries: Map::empty(),
            }),
    {
        let worker = NetworkWorker {
            local_peer_id,
            event_sender: Vec::new(),
            pending_request_file: HashMap::new(),
            pending_queries: HashMap::new(),
        };
        assert(worker@.pending_request_file =~= Map::empty());
        assert(worker@.pending_queries =~= Map::empty());
        worker
    }

    /// The identifier of the local node.
    pub fn local_peer_id(&self) -> (peer: &PeerId)
        ensures
            peer@ == self@.local_peer_id,
    {
        &self.local_peer_id
    }

    /// The subscribers, in the order in which they registered.
    pub fn subscribers(&self) -> (senders: &Vec<S>)
        ensures
            senders@ == self@.event_sender,
    {
        &self.event_sender
    }

    /// The key and the peer of the outbound request `request_id`, while it
    /// is neither answered nor failed.
    pub fn outstanding(&self, request_id: u64) -> (request: Option<(&RecordKey, &PeerId)>)
        ensures
            match request {
                Some((key, peer)) => self@.pending_request_file.contains_key(request_id) && (
                    key@,
                    peer@,
                ) == self@.pending_request_file[request_id],
                None => !self@.pending_request_file.contains_key(request_id),
            },
    {
        match self.pending_request_file.get(&request_id) {
            Some(entry) => Some((&entry.0, &entry.1)),
            None => None,
        }
    }

    /// Drops the subscriber at `index`, whose channel has closed, and hands
    /// it back; with an index that is not in the list nothing changes.
    pub fn remove_subscriber(&mut self, index: usize) -> (removed: Option<S>)
        ensures
            index < old(self)@.event_sender.len() ==> removed == Some(
                old(self)@.event_sender[index as int],
            ) && final(self)@ == (WorkerView {
                event_sender: old(self)@.event_sender.remove(index as int),
                ..old(self)@
            }),
            index >= old(self)@.event_sender.len() ==> removed is None && final(self)@ == old(
                self,
            )@,
    {
        if index < self.event_sender.len() {
            Some(self.event_sender.remove(index))
        } else {
            None
        }
    }

    /// Carries out a command: changes the worker's tables and returns what
    /// is to be done, in order.
    pub fn handle_worker_message(&mut self, msg: ServiceMsg<S>) -> (actions: Vec<Action>)
        ensures
            final(self)@ == message_step(old(self)@, msg@).0,
            actions_of(actions@) == message_step(old(self)@, msg@).1,
    {
        let mut actions: Vec<Action> = Vec::new();
        match msg {
            ServiceMsg::EventStream { sender } => {
                self.event_sender.push(sender);
            },
            ServiceMsg::StartProviding { key, data } => {
                actions.push(Action::Save { file_name: file_name(&key), data });
                actions.push(Action::StartProviding { key });
            },
            ServiceMsg::FindFirstProvider { key } => {
                actions.push(Action::GetProviders { key });
            },
            ServiceMsg::GetData { key, peer } => {
                if peer == self.local_peer_id {
                    actions.push(Action::Load { file_name: file_name(&key), key, peer });
                } else {
                    let request = DataRequest { key: key.to_vec() };
                    actions.push(Action::SendRequest { key, peer, request });
                }
            },
        }
        assert(actions_of(actions@) =~= message_step(old(self)@, msg@).1);
        actions
    }

    /// Records that the request for `key` that was sent to `peer` has the
    /// identifier `request_id`, until its answer or its failure is reported.
    pub fn request_sent(&mut self, request_id: u64, key: RecordKey, peer: PeerId)
        ensures
            final(self)@ == (WorkerView {
                pending_request_file: old(self)@.pending_request_file.insert(
                    request_id,
                    (key@, peer@),
                ),
                ..old(self)@
            }),
    {
        let _ = self.pending_request_file.insert(request_id, (key, peer));
        assert(self@.pending_request_file =~= old(self)@.pending_request_file.insert(
            request_id,
            (key@, peer@),
        ));
    }

    /// Records that the discovery query for the providers of `key` has the
    /// identifier `query_id`, until something is told of it.
    pub fn query_started(&mut self, query_id: u64, key: RecordKey)
        ensures
            final(self)@ == (WorkerView {
                pending_queries: old(self)@.pending_queries.insert(query_id, key@),
                ..old(self)@
            }),
    {
        let _ = self.pending_queries.insert(query_id, key);
        assert(self@.pending_queries =~= old(self)@.pending_queries.insert(query_id, key@));
    }

    /// The key of the discovery query `query_id`, while nothing was told
    /// of the query.
    pub fn query(&self, query_id: u64) -> (key: Option<&RecordKey>)
        ensures
            match key {
                Some(key) => self@.pending_queries.contains_key(query_id) && key@
                    == self@.pending_queries[query_id],
                None => !self@.pending_queries.contains_key(query_id),
            },
    {
        self.pending_queries.get(&query_id)
    }

    /// Takes in a report of the overlay: changes the worker's tables and
    /// returns what is to be done, in order.
    pub fn handle_swarm_event(&mut self, event: SwarmEvent) -> (actions: Vec<Action>)
        ensures
            final(self)@ == swarm_step(old(self)@, event@).0,
            actions_of(actions@) == swarm_step(old(self)@, event@).1,
    {
        let mut actions: Vec<Action> = Vec::new();
        match event {
            SwarmEvent::ProvidingStarted { key } => {
                actions.push(Action::Emit { event: Event::StartProviding { key } });
            },
            SwarmEvent::ProvidingTimedOut { key } => {
                actions.push(Action::Emit { event: Event::StartProvidingFailed { key } });
            },
            SwarmEvent::ProvidersFound { query_id, key, providers } => {
                if self.pending_queries.remove(&query_id).is_some() {
                    actions.push(Action::Emit { event: Event::FoundProviders { key, providers } });
                    actions.push(Action::FinishQuery);
                }
                assert(self@.pending_queries =~= swarm_step(old(self)@, event@).0.pending_queries);
            },
            SwarmEvent::ProvidersFinished { query_id } => {
                match self.pending_queries.remove(&query_id) {
                    Some(key) => {
                        actions.push(
                            Action::Emit {
                                event: Event::FoundProviders { key, providers: PeerSet::new() },
                            },
                        );
                    },
                    None => {},
                }
                assert(self@.pending_queries =~= swarm_step(old(self)@, event@).0.pending_queries);
            },
            SwarmEvent::ProvidersTimedOut { query_id, key } => {
                if self.pending_queries.remove(&query_id).is_some() {
                    actions.push(Action::Emit { event: Event::FoundProvidersFailed { key } });
                }
                assert(self@.pending_queries =~= swarm_step(old(self)@, event@).0.pending_queries);
            },
            SwarmEvent::Request { request } => {
                let key = RecordKey::new(request.key);
                actions.push(Action::Serve { file_name: file_name(&key) });
            },
            SwarmEvent::Response { request_id, response } => {
                match self.pending_request_file.remove(&request_id) {
                    Some((key, peer)) => {
                        actions.push(
                            Action::Emit {
                                event: Event::DataReceived { key, peer, data: response.data },
                            },
                        );
                    },
                    None => {},
                }
                assert(self@.pending_request_file =~= swarm_step(
                    old(self)@,
                    event@,
                ).0.pending_request_file);
            },
            SwarmEvent::OutboundFailure { request_id } => {
                match self.pending_request_file.remove(&request_id) {
                    Some((key, peer)) => {
                        actions.push(
                            Action::Emit { event: Event::DataReceivedFailed { key, peer } },
                        );
                    },
                    None => {},
                }
                assert(self@.pending_request_file =~= swarm_step(
                    old(self)@,
                    event@,
                ).0.pending_request_file);
            },
            SwarmEvent::Other => {},
        }
        assert(actions_of(actions@) =~= swarm_step(old(self)@, event@).1);
        actions
    }

    /// The event to tell after the local store was read for `key` on behalf
    /// of a fetch from `peer`: the bytes, or the failure when there are none.
    pub fn data_loaded(key: RecordKey, peer: PeerId, loaded: Option<Vec<u8>>) -> (event: Event)
        ensures
            event@ == loaded_event(key@, peer@, bytes_of(loaded)),
    {
        match loaded {
            Some(data) => Event::DataReceived { key, peer, data },
            None => Event::DataReceivedFailed { key, peer },
        }
    }

    /// The answer to a remote peer's request after the local store was
    /// read: the bytes, or nothing to send when there are none.
    pub fn respond(loaded: Option<Vec<u8>>) -> (response: Option<DataResponse>)
        ensures
            match loaded {
                Some(data) => response is Some && response->0.data@ == data@,
                None => response is None,
            },
    {
        match loaded {
            Some(data) => Some(DataResponse { data }),
            None => None,
        }
    }
}

} // verus!
