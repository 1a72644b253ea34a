//! The lookup coordinator as a state machine: each message and each event of
//! the transfer worker changes its tables and yields what to ask of the
//! network and which callers to answer.

use crate::key::{bytes_of, PeerSet, RecordKey};
use crate::network::worker::{Event, EventView};
use crate::network::{NetworkRequest, NetworkRequestView};
use crate::rpc::{ServiceMsg, ServiceMsgView};
use crate::table::KeyTable;
use vstd::prelude::*;

verus! {

/// The callers that are answered together, and the answer: the bytes, or
/// nothing when the content was not found.
#[derive(Debug, PartialEq, Eq)]
pub struct Resolution<W> {
    pub waiters: Vec<W>,
    pub result: Option<Vec<u8>>,
}

/// A resolution, as plain values.
pub struct ResolutionView<W> {
    pub waiters: Seq<W>,
    pub result: Option<Seq<u8>>,
}

impl<W> View for Resolution<W> {
    type V = ResolutionView<W>;

    open spec fn view(&self) -> ResolutionView<W> {
        ResolutionView {
            waiters: self.waiters@,
            result: bytes_of(self.result),
        }
    }
}

/// What the coordinator wants done after a message or an event: the calls
/// to make on the network, in order, and the callers to answer, if any.
#[derive(Debug, PartialEq, Eq)]
pub struct Reaction<W> {
    pub requests: Vec<NetworkRequest>,
    pub resolution: Option<Resolution<W>>,
}

/// A reaction, as plain values.
pub struct ReactionView<W> {
    pub requests: Seq<NetworkRequestView>,
    pub resolution: Option<ResolutionView<W>>,
}

/// A list of calls, as plain values.
pub open spec fn requests_of(requests: Seq<NetworkRequest>) -> Seq<NetworkRequestView> {
    Seq::new(requests.len(), |i: int| requests[i]@)
}

impl<W> View for Reaction<W> {
    type V = ReactionView<W>;

    open spec fn view(&self) -> ReactionView<W> {
        ReactionView {
            requests: requests_of(self.requests@),
            resolution: match self.resolution {
                Some(resolution) => Some(resolution@),
                None => None,
            },
        }
    }
}

/// The state of the lookup coordinator, as plain values.
pub struct LookupView<W> {
    /// For each key that is being looked up, the callers that wait for it,
    /// in the order in which they asked.
    pub pending_lookups: Map<Seq<u8>, Seq<W>>,
    /// For each key whose providers were asked for its bytes, those of them
    /// that have not failed.
    pub lookup_peers: Map<Seq<u8>, Seq<Seq<u8>>>,
}

/// The reaction that asks nothing and answers nobody.
pub open spec fn no_reaction<W>() -> ReactionView<W> {
    ReactionView { requests: Seq::empty(), resolution: None }
}

/// One fetch of `key` from each of `providers`, in their order.
pub open spec fn fan_out(key: Seq<u8>, providers: Seq<Seq<u8>>) -> Seq<NetworkRequestView> {
    Seq::new(providers.len(), |i: int| NetworkRequestView::GetData { key, peer: providers[i] })
}

/// Ends the lookup of `key`: all its waiting callers are answered with
/// `result` and the key is no longer pending. Without a pending lookup of
/// `key` nothing happens.
pub open spec fn resolve_step<W>(state: LookupView<W>, key: Seq<u8>, result: Option<Seq<u8>>) -> (
    LookupView<W>,
    ReactionView<W>,
) {
    if state.pending_lookups.contains_key(key) {
        (
            LookupView { pending_lookups: state.pending_lookups.remove(key), ..state },
            ReactionView {
                requests: Seq::empty(),
                resolution: Some(
                    ResolutionView { waiters: state.pending_lookups[key], result },
                ),
            },
        )
    } else {
        (state, no_reaction())
    }
}

/// What a message does to the coordinator, and its reaction.
pub open spec fn lookup_message_step<W>(state: LookupView<W>, msg: ServiceMsgView<W>) -> (
    LookupView<W>,
    ReactionView<W>,
) {
    match msg {
        ServiceMsgView::PutData { key, data } => (
            state,
            ReactionView {
                requests: seq![NetworkRequestView::StartProviding { key, data }],
                resolution: None,
            },
        ),
        ServiceMsgView::GetData { key, sender } => if state.pending_lookups.contains_key(key) {
            (
                LookupView {
                    pending_lookups: state.pending_lookups.insert(
                        key,
                        state.pending_lookups[key].push(sender),
                    ),
                    ..state
                },
                no_reaction(),
            )
        } else {
            (
                LookupView {
                    pending_lookups: state.pending_lookups.insert(key, seq![sender]),
                    ..state
                },
                ReactionView {
                    requests: seq![NetworkRequestView::FindFirstProvider { key }],
                    resolution: None,
                },
            )
        },
    }
}

/// What an event of the transfer worker does to the coordinator, and its
/// reaction.
pub open spec fn lookup_event_step<W>(state: LookupView<W>, event: EventView) -> (
    LookupView<W>,
    ReactionView<W>,
) {
    match event {
        EventView::FoundProviders { key, providers } => if providers.len() == 0 {
            resolve_step(state, key, None)
        } else {
            (
                LookupView { lookup_peers: state.lookup_peers.insert(key, providers), ..state },
                ReactionView { requests: fan_out(key, providers), resolution: None },
            )
        },
        EventView::FoundProvidersFailed { key } => resolve_step(state, key, None),
        EventView::DataReceived { key, peer, data } => resolve_step(
            LookupView { lookup_peers: state.lookup_peers.remove(key), ..state },
            key,
            Some(data),
        ),
        EventView::DataReceivedFailed { key, peer } => if state.lookup_peers.contains_key(key) {
            let rest = state.lookup_peers[key].remove_value(peer);
            if rest.len() > 0 {
                (
                    LookupView { lookup_peers: state.lookup_peers.insert(key, rest), ..state },
                    no_reaction(),
                )
            } else {
                resolve_step(
                    LookupView { lookup_peers: state.lookup_peers.remove(key), ..state },
                    key,
                    None,
                )
            }
        } else {
            (state, no_reaction())
        },
        EventView::StartProviding { key } => (state, no_reaction()),
        EventView::StartProvidingFailed { key } => (state, no_reaction()),
    }
}

/// The waiting callers of a table, as plain values.
pub open spec fn waiters_of<W>(table: Map<Seq<u8>, Vec<W>>) -> Map<Seq<u8>, Seq<W>> {
    Map::new(|key: Seq<u8>| table.contains_key(key), |key: Seq<u8>| table[key]@)
}

/// The candidate providers of a table, as plain values.
pub open spec fn candidates_of(table: Map<Seq<u8>, PeerSet>) -> Map<Seq<u8>, Seq<Seq<u8>>> {
    Map::new(|key: Seq<u8>| table.contains_key(key), |key: Seq<u8>| table[key]@)
}

/// The lookup coordinator's own state. `W` is what a waiting caller is
/// answered through.
pub struct Worker<W> {
    /// Lookups currently in progress.
    pending_lookups: KeyTable<Vec<W>>,
    /// Peers providing data.
    lookup_peers: KeyTable<PeerSet>,
}

impl<W> View for Worker<W> {
    type V = LookupView<W>;

    closed spec fn view(&self) -> LookupView<W> {
        LookupView {
            pending_lookups: waiters_of(self.pending_lookups@),
            lookup_peers: candidates_of(self.lookup_peers@),
        }
    }
}

impl<W> Worker<W> {
    /// The coordinator with no lookup in progress.
    pub fn new() -> (worker: Self)
        ensures
            worker@ == (LookupView::<W> {
                pending_lookups: Map::empty(),
                lookup_peers: Map::empty(),
            }),
    {
        let worker = Worker { pending_lookups: KeyTable::new(), lookup_peers: KeyTable::new() };
        assert(worker@.pending_lookups =~= Map::empty());
        assert(worker@.lookup_peers =~= Map::empty());
        worker
    }

    /// Whether callers are waiting for `key`.
    pub fn is_pending(&self, key: &RecordKey) -> (pending: bool)
        ensures
            pending == self@.pending_lookups.contains_key(key@),
    {
        self.pending_lookups.contains_key(key)
    }

    /// The providers of `key` that were asked for its bytes and have not
    /// failed, if any are remembered.
    pub fn candidates(&self, key: &RecordKey) -> (peers: Option<&PeerSet>)
        ensures
            match peers {
                Some(peers) => self@.lookup_peers.contains_key(key@) && peers@
                    == self@.lookup_peers[key@],
                None => !self@.lookup_peers.contains_key(key@),
            },
    {
        self.lookup_peers.get(key)
    }

    fn resolve(&mut self, key: &RecordKey, result: Option<Vec<u8>>) -> (reaction: Reaction<W>)
        ensures
            final(self)@ == resolve_step(old(self)@, key@, bytes_of(result)).0,
            reaction@ == resolve_step(old(self)@, key@, bytes_of(result)).1,
    {
        let ghost spec_result = bytes_of(result);
        let reaction = match self.pending_lookups.remove(key) {
            Some(waiters) => Reaction {
                requests: Vec::new(),
                resolution: Some(Resolution { waiters, result }),
            },
            None => Reaction { requests: Vec::new(), resolution: None },
        };
        assert(self@.pending_lookups =~= resolve_step(
            old(self)@,
            key@,
            spec_result,
        ).0.pending_lookups);
        assert(reaction@.requests =~= Seq::empty());
        reaction
    }

    /// Takes in a message: changes the coordinator's tables and returns its
    /// reaction.
    pub fn handle_message(&mut self, msg: ServiceMsg<W>) -> (reaction: Reaction<W>)
        ensures
            final(self)@ == lookup_message_step(old(self)@, msg@).0,
            reaction@ == lookup_message_step(old(self)@, msg@).1,
    {
        let mut requests: Vec<NetworkRequest> = Vec::new();
        match msg {
            ServiceMsg::PutData { key, data } => {
                requests.push(NetworkRequest::StartProviding { key, data });
            },
            ServiceMsg::GetData { key, sender } => {
                let mut waiters = match self.pending_lookups.remove(&key) {
                    Some(waiters) => waiters,
                    None => {
                        requests.push(NetworkRequest::FindFirstProvider { key: key.clone() });
                        Vec::new()
                    },
                };
                waiters.push(sender);
                let _ = self.pending_lookups.insert(key, waiters);
                assert(self@.pending_lookups =~= lookup_message_step(
                    old(self)@,
                    msg@,
                ).0.pending_lookups);
            },
        }
        let reaction = Reaction { requests, resolution: None };
        assert(reaction@.requests =~= lookup_message_step(old(self)@, msg@).1.requests);
        reaction
    }

    /// Takes in an event of the transfer worker: changes the coordinator's
    /// tables and returns its reaction.
    pub fn handle_dx_event(&mut self, event: Event) -> (reaction: Reaction<W>)
        ensures
            final(self)@ == lookup_event_step(old(self)@, event@).0,
            reaction@ == lookup_event_step(old(self)@, event@).1,
    {
        match event {
            Event::FoundProviders { key, providers } => {
                if providers.is_empty() {
                    self.resolve(&key, None)
                } else {
                    let mut requests: Vec<NetworkRequest> = Vec::new();
                    let mut i: usize = 0;
                    while i < providers.len()
                        invariant
                            i <= providers@.len(),
                            requests@.len() == i,
                            requests_of(requests@) == fan_out(key@, providers@.subrange(0, i as int)),
                        decreases providers@.len() - i,
                    {
                        let ghost before = requests@;
                        let peer = providers.get(i).clone();
                        requests.push(NetworkRequest::GetData { key: key.clone(), peer });
                        assert forall|j: int| 0 <= j <= i implies requests_of(requests@)[j]
                            == fan_out(key@, providers@.subrange(0, i + 1))[j] by {
                            if j < i {
                                assert(requests@[j] == before[j]);
                                assert(requests_of(before)[j] == fan_out(
                                    key@,
                                    providers@.subrange(0, i as int),
                                )[j]);
                            }
                        }
                        assert(requests_of(requests@) =~= fan_out(
                            key@,
                            providers@.subrange(0, i + 1),
                        ));
                        i += 1;
                    }
                    assert(providers@.subrange(0, i as int) =~= providers@);
                    let _ = self.lookup_peers.insert(key, providers);
                    assert(self@.lookup_peers =~= lookup_event_step(
                        old(self)@,
                        event@,
                    ).0.lookup_peers);
                    Reaction { requests, resolution: None }
                }
            },
            Event::FoundProvidersFailed { key } => self.resolve(&key, None),
            Event::DataReceived { key, peer, data } => {
                let _ = self.lookup_peers.remove(&key);
                assert(self@.lookup_peers =~= old(self)@.lookup_peers.remove(key@));
                self.resolve(&key, Some(data))
            },
            Event::DataReceivedFailed { key, peer } => {
                match self.lookup_peers.remove(&key) {
                    Some(mut peers) => {
                        let _ = peers.remove(&peer);
                        if !peers.is_empty() {
                            let _ = self.lookup_peers.insert(key, peers);
                            assert(self@.lookup_peers =~= lookup_event_step(
                                old(self)@,
                                event@,
                            ).0.lookup_peers);
                            let reaction = Reaction { requests: Vec::new(), resolution: None };
                            assert(reaction@.requests =~= Seq::empty());
                            reaction
                        } else {
                            assert(self@.lookup_peers =~= old(self)@.lookup_peers.remove(key@));
                            self.resolve(&key, None)
                        }
                    },
                    None => {
                        assert(self@.lookup_peers =~= old(self)@.lookup_peers);
                        let reaction = Reaction { requests: Vec::new(), resolution: None };
                        assert(reaction@.requests =~= Seq::empty());
                        reaction
                    },
                }
            },
            Event::StartProviding { key } => {
                let reaction = Reaction { requests: Vec::new(), resolution: None };
                assert(reaction@.requests =~= Seq::empty());
                reaction
            },
            Event::StartProvidingFailed { key } => {
                let reaction = Reaction { requests: Vec::new(), resolution: None };
                assert(reaction@.requests =~= Seq::empty());
                reaction
            },
        }
    }
}

} // verus!
