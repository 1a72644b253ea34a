//! One node as a whole: the lookup coordinator on top of the transfer worker
//! and its content store.

use crate::network::store::file_name_of;
use crate::network::worker::{
    loaded_event, message_step, swarm_step, ActionView, EventView, SwarmEventView, WorkerView,
};
use crate::network::{command_of, NetworkRequestView};
use crate::rpc::laws::lemma_remove_value;
use crate::rpc::worker::{
    fan_out, lookup_event_step, lookup_message_step, LookupView, ResolutionView,
};
use crate::rpc::ServiceMsgView;
use vstd::prelude::*;

verus! {

/// The content store after an action was performed on it, when it went well.
pub open spec fn store_after(store: Map<Seq<char>, Seq<u8>>, action: ActionView) -> Map<
    Seq<char>,
    Seq<u8>,
> {
    match action {
        ActionView::Save { file_name, data } => store.insert(file_name, data),
        _ => store,
    }
}

/// What reading a file of the content store gives.
pub open spec fn load(store: Map<Seq<char>, Seq<u8>>, file_name: Seq<char>) -> Option<Seq<u8>> {
    if store.contains_key(file_name) {
        Some(store[file_name])
    } else {
        None
    }
}

/// The event that an action tells the subscribers, if it tells one.
pub open spec fn told(action: ActionView) -> Option<EventView> {
    match action {
        ActionView::Emit { event } => Some(event),
        _ => None,
    }
}

/// The worker after the overlay gave the identifier `query_id` to the
/// discovery query that an action asked for.
pub open spec fn query_noted<S>(worker: WorkerView<S>, action: ActionView, query_id: u64) -> WorkerView<
    S,
> {
    match action {
        ActionView::GetProviders { key } => WorkerView {
            pending_queries: worker.pending_queries.insert(query_id, key),
            ..worker
        },
        _ => worker,
    }
}

/// Discovery names the local node as the only provider of a key: the bytes
/// are read from the local store and no request goes out to the network. The
/// callers that wait for the key are answered with what the store holds for
/// it, or with "not found" when it holds nothing.
pub proof fn lemma_self_serve<W, S>(
    lookup: LookupView<W>,
    worker: WorkerView<S>,
    store: Map<Seq<char>, Seq<u8>>,
    key: Seq<u8>,
    query_id: u64,
)
    requires
        lookup.pending_lookups.contains_key(key),
        worker.pending_queries.contains_key(query_id),
    ensures
        ({
            let local = worker.local_peer_id;
            let (reported, telling) = swarm_step(
                worker,
                SwarmEventView::ProvidersFound { query_id, key, providers: seq![local] },
            );
            let (found, fetch) = lookup_event_step(lookup, told(telling[0])->0);
            let (fetching, actions) = message_step(reported, command_of(fetch.requests[0]));
            let loaded = load(store, file_name_of(key));
            let (done, answer) = lookup_event_step(found, loaded_event(key, local, loaded));
            &&& telling == seq![
                ActionView::Emit {
                    event: EventView::FoundProviders { key, providers: seq![local] },
                },
                ActionView::FinishQuery,
            ]
            &&& fetch.requests == seq![NetworkRequestView::GetData { key, peer: local }]
            &&& fetch.resolution is None
            &&& actions == seq![ActionView::Load { file_name: file_name_of(key), key, peer: local }]
            &&& fetching == reported
            &&& fetching.pending_request_file == worker.pending_request_file
            &&& answer.requests == Seq::<NetworkRequestView>::empty()
            &&& answer.resolution == Some(
                ResolutionView { waiters: lookup.pending_lookups[key], result: loaded },
            )
            &&& !done.pending_lookups.contains_key(key)
            &&& !done.lookup_peers.contains_key(key)
        }),
{
    let local = worker.local_peer_id;
    let providers = seq![local];
    let (found, fetch) = lookup_event_step(lookup, EventView::FoundProviders { key, providers });
    assert(fetch.requests =~= seq![NetworkRequestView::GetData { key, peer: local }]);
    assert(providers[0] == local);
    assert(providers.contains(local));
    lemma_remove_value(providers, local);
}

/// A key is put on a node and then asked for on the same node, by a caller
/// that is the first to ask for it. Discovery names the local node among
/// the providers, and the local store is the first to answer: the caller is
/// answered with the bytes that were put, and the fetch from the local node
/// sends no request to the network.
pub proof fn lemma_round_trip<W, S>(
    lookup: LookupView<W>,
    worker: WorkerView<S>,
    store: Map<Seq<char>, Seq<u8>>,
    key: Seq<u8>,
    data: Seq<u8>,
    waiter: W,
    query_id: u64,
    providers: Seq<Seq<u8>>,
)
    requires
        !lookup.pending_lookups.contains_key(key),
        providers.contains(worker.local_peer_id),
    ensures
        ({
            let local = worker.local_peer_id;
            let (put, publish) = lookup_message_step(lookup, ServiceMsgView::PutData { key, data });
            let (providing, saving) = message_step(worker, command_of(publish.requests[0]));
            let stored = store_after(store, saving[0]);
            let (asked, discover) = lookup_message_step(
                put,
                ServiceMsgView::GetData { key, sender: waiter },
            );
            let (finding, query) = message_step(providing, command_of(discover.requests[0]));
            let searching = query_noted(finding, query[0], query_id);
            let (reported, telling) = swarm_step(
                searching,
                SwarmEventView::ProvidersFound { query_id, key, providers },
            );
            let (found, fetch) = lookup_event_step(asked, told(telling[0])->0);
            let (fetching, reading) = message_step(
                reported,
                command_of(NetworkRequestView::GetData { key, peer: local }),
            );
            let loaded = load(stored, reading[0]->Load_file_name);
            let (done, answer) = lookup_event_step(found, loaded_event(key, local, loaded));
            &&& publish.requests == seq![NetworkRequestView::StartProviding { key, data }]
            &&& saving == seq![
                ActionView::Save { file_name: file_name_of(key), data },
                ActionView::StartProviding { key },
            ]
            &&& discover.requests == seq![NetworkRequestView::FindFirstProvider { key }]
            &&& query == seq![ActionView::GetProviders { key }]
            &&& fetch.requests == fan_out(key, providers)
            &&& fetch.requests.contains(NetworkRequestView::GetData { key, peer: local })
            &&& reading == seq![ActionView::Load { file_name: file_name_of(key), key, peer: local }]
            &&& fetching.pending_request_file == worker.pending_request_file
            &&& answer.resolution == Some(
                ResolutionView { waiters: seq![waiter], result: Some(data) },
            )
            &&& done.pending_lookups == lookup.pending_lookups
            &&& !done.lookup_peers.contains_key(key)
        }),
{
    let local = worker.local_peer_id;
    let (put, publish) = lookup_message_step(lookup, ServiceMsgView::PutData { key, data });
    let (asked, discover) = lookup_message_step(
        put,
        ServiceMsgView::GetData { key, sender: waiter },
    );
    let (found, fetch) = lookup_event_step(asked, EventView::FoundProviders { key, providers });
    let index = providers.index_of(local);
    assert(fetch.requests[index] == NetworkRequestView::GetData { key, peer: local });
    let stored = store.insert(file_name_of(key), data);
    let (done, answer) = lookup_event_step(
        found,
        loaded_event(key, local, load(stored, file_name_of(key))),
    );
    assert(done.pending_lookups =~= lookup.pending_lookups);
}

/// A key that nobody provides is asked for, by a caller that is the first
/// to ask for it: whether the discovery query ends without a provider or
/// times out, the caller is answered with "not found", and no fetch is
/// asked of any peer.
pub proof fn lemma_unknown_key<W, S>(
    lookup: LookupView<W>,
    worker: WorkerView<S>,
    key: Seq<u8>,
    waiter: W,
    query_id: u64,
    timed_out: bool,
)
    requires
        !lookup.pending_lookups.contains_key(key),
    ensures
        ({
            let (asked, discover) = lookup_message_step(
                lookup,
                ServiceMsgView::GetData { key, sender: waiter },
            );
            let (finding, query) = message_step(worker, command_of(discover.requests[0]));
            let searching = query_noted(finding, query[0], query_id);
            let (ended, telling) = swarm_step(
                searching,
                if timed_out {
                    SwarmEventView::ProvidersTimedOut { query_id, key }
                } else {
                    SwarmEventView::ProvidersFinished { query_id }
                },
            );
            let (done, answer) = lookup_event_step(asked, told(telling[0])->0);
            &&& discover.requests == seq![NetworkRequestView::FindFirstProvider { key }]
            &&& query == seq![ActionView::GetProviders { key }]
            &&& telling.len() == 1
            &&& told(telling[0]) is Some
            &&& !ended.pending_queries.contains_key(query_id)
            &&& answer.requests == Seq::<NetworkRequestView>::empty()
            &&& answer.resolution == Some(ResolutionView { waiters: seq![waiter], result: None })
            &&& done.pending_lookups == lookup.pending_lookups
            &&& done.lookup_peers == lookup.lookup_peers
        }),
{
    let (asked, discover) = lookup_message_step(
        lookup,
        ServiceMsgView::GetData { key, sender: waiter },
    );
    let (done, answer) = lookup_event_step(asked, EventView::FoundProvidersFailed { key });
    assert(done.pending_lookups =~= lookup.pending_lookups);
}

/// A discovery query tells its outcome once: after its first report of
/// providers, or after it ended or timed out, no later report of the same
/// query tells anything.
pub proof fn lemma_query_told_once<S>(
    worker: WorkerView<S>,
    query_id: u64,
    first: SwarmEventView,
    second: SwarmEventView,
)
    requires
        worker.pending_queries.contains_key(query_id),
        reports_query(first, query_id),
        reports_query(second, query_id),
    ensures
        ({
            let (told_once, telling) = swarm_step(worker, first);
            let (after, nothing) = swarm_step(told_once, second);
            &&& telling.len() > 0
            &&& told(telling[0]) is Some
            &&& told_once.pending_queries == worker.pending_queries.remove(query_id)
            &&& after == told_once
            &&& nothing == Seq::<ActionView>::empty()
        }),
{
}

/// Whether a report of the overlay is of the discovery query `query_id`.
pub open spec fn reports_query(event: SwarmEventView, query_id: u64) -> bool {
    match event {
        SwarmEventView::ProvidersFound { query_id: id, .. } => id == query_id,
        SwarmEventView::ProvidersFinished { query_id: id } => id == query_id,
        SwarmEventView::ProvidersTimedOut { query_id: id, .. } => id == query_id,
        _ => false,
    }
}

/// Whether a report of the overlay is the answer to the outbound request
/// `request_id` or its failure.
pub open spec fn concludes(event: SwarmEventView, request_id: u64) -> bool {
    match event {
        SwarmEventView::Response { request_id: id, .. } => id == request_id,
        SwarmEventView::OutboundFailure { request_id: id } => id == request_id,
        _ => false,
    }
}

/// The answer to an outbound request, or its failure, is joined to the key
/// and the peer of the request once: the request is then forgotten, and a
/// second report for the same identifier does nothing.
pub proof fn lemma_request_joined_once<S>(
    worker: WorkerView<S>,
    request_id: u64,
    first: SwarmEventView,
    second: SwarmEventView,
)
    requires
        worker.pending_request_file.contains_key(request_id),
        concludes(first, request_id),
        concludes(second, request_id),
    ensures
        ({
            let (key, peer) = worker.pending_request_file[request_id];
            let (joined, told) = swarm_step(worker, first);
            let (after, nothing) = swarm_step(joined, second);
            &&& joined.pending_request_file == worker.pending_request_file.remove(request_id)
            &&& told.len() == 1
            &&& told[0] == match first {
                SwarmEventView::Response { data, .. } => ActionView::Emit {
                    event: EventView::DataReceived { key, peer, data },
                },
                _ => ActionView::Emit { event: EventView::DataReceivedFailed { key, peer } },
            }
            &&& after == joined
            &&& nothing == Seq::<ActionView>::empty()
        }),
{
}

} // verus!
