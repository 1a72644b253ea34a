//! What holds of every run of the lookup coordinator.

use crate::network::worker::EventView;
use crate::network::NetworkRequestView;
use crate::rpc::worker::{
    fan_out, lookup_event_step, lookup_message_step, no_reaction, LookupView, ReactionView,
    ResolutionView,
};
use crate::rpc::ServiceMsgView;
use vstd::prelude::*;

verus! {

/// The state after the fetches of `key` from the first `count` peers of
/// `failures` have failed, one after the other.
pub open spec fn after_failures<W>(
    state: LookupView<W>,
    key: Seq<u8>,
    failures: Seq<Seq<u8>>,
    count: nat,
) -> LookupView<W>
    decreases count,
{
    if count == 0 {
        state
    } else {
        lookup_event_step(
            after_failures(state, key, failures, (count - 1) as nat),
            EventView::DataReceivedFailed { key, peer: failures[count - 1] },
        ).0
    }
}

/// Taking a value out of a list without repetitions leaves the other values,
/// each once, and shortens the list by one if the value was in it.
pub proof fn lemma_remove_value<A>(list: Seq<A>, value: A)
    requires
        list.no_duplicates(),
    ensures
        list.remove_value(value).no_duplicates(),
        forall|other: A|
            list.remove_value(value).contains(other) <==> list.contains(other) && other != value,
        list.contains(value) ==> list.remove_value(value).len() == list.len() - 1,
        !list.contains(value) ==> list.remove_value(value) == list,
{
    list.index_of_first_ensures(value);
    if list.contains(value) {
        let index = list.index_of_first(value)->0;
        let rest = list.remove(index);
        assert forall|other: A| rest.contains(other) <==> list.contains(other) && other
            != value by {
            if rest.contains(other) {
                let i = rest.index_of(other);
                let i0 = if i < index {
                    i
                } else {
                    i + 1
                };
                assert(list[i0] == other);
            }
            if list.contains(other) && other != value {
                let i0 = list.index_of(other);
                let i = if i0 < index {
                    i0
                } else {
                    i0 - 1
                };
                assert(rest[i] == other);
            }
        }
        assert forall|i: int, j: int| 0 <= i < rest.len() && 0 <= j < rest.len() && i
            != j implies rest[i] != rest[j] by {
            let i0 = if i < index {
                i
            } else {
                i + 1
            };
            let j0 = if j < index {
                j
            } else {
                j + 1
            };
            assert(rest[i] == list[i0]);
            assert(rest[j] == list[j0]);
        }
    }
}

/// An event either leaves the callers that wait for a key as they are, or it
/// answers all of them at once, with one result, and the key is no longer
/// pending.
pub proof fn lemma_waiters_resolved_together<W>(
    state: LookupView<W>,
    event: EventView,
    key: Seq<u8>,
)
    requires
        state.pending_lookups.contains_key(key),
    ensures
        ({
            let (next, reaction) = lookup_event_step(state, event);
            if next.pending_lookups.contains_key(key) {
                next.pending_lookups[key] == state.pending_lookups[key]
            } else {
                &&& reaction.resolution is Some
                &&& reaction.resolution->0.waiters == state.pending_lookups[key]
            }
        }),
{
}

/// The state after the first `count` of `events` were taken in, one after
/// the other.
pub open spec fn after_events<W>(state: LookupView<W>, events: Seq<EventView>, count: nat) -> LookupView<
    W,
>
    decreases count,
{
    if count == 0 {
        state
    } else {
        lookup_event_step(after_events(state, events, (count - 1) as nat), events[count - 1]).0
    }
}

/// Whether the event at `index` of a run is the one that answers the
/// callers that waited for `key` at the start of the run, all of them at
/// once, and ends the lookup of the key.
#[verifier::opaque]
pub open spec fn answered_at<W>(
    state: LookupView<W>,
    events: Seq<EventView>,
    key: Seq<u8>,
    index: nat,
) -> bool {
    let before = after_events(state, events, index);
    let (next, reaction) = lookup_event_step(before, events[index as int]);
    &&& before.pending_lookups.contains_key(key)
    &&& !next.pending_lookups.contains_key(key)
    &&& reaction.resolution is Some
    &&& reaction.resolution->0.waiters == state.pending_lookups[key]
}

/// No event makes a key pending.
pub proof fn lemma_event_starts_no_lookup<W>(state: LookupView<W>, event: EventView, key: Seq<u8>)
    requires
        !state.pending_lookups.contains_key(key),
    ensures
        !lookup_event_step(state, event).0.pending_lookups.contains_key(key),
{
}

/// Over any run of events, the callers that wait for a key are answered
/// together and once: until one event answers all of them they stay as they
/// are, and after it the key is pending no more.
pub proof fn lemma_answered_together_once<W>(
    state: LookupView<W>,
    events: Seq<EventView>,
    key: Seq<u8>,
    count: nat,
)
    requires
        state.pending_lookups.contains_key(key),
        count <= events.len(),
    ensures
        ({
            let now = after_events(state, events, count);
            if now.pending_lookups.contains_key(key) {
                &&& now.pending_lookups[key] == state.pending_lookups[key]
                &&& forall|index: nat|
                    index < count ==> !#[trigger] answered_at(state, events, key, index)
            } else {
                exists|index: nat|
                    {
                        &&& index < count
                        &&& #[trigger] answered_at(state, events, key, index)
                        &&& forall|other: nat|
                            other < count && other != index ==> !#[trigger] answered_at(
                                state,
                                events,
                                key,
                                other,
                            )
                    }
            }
        }),
    decreases count,
{
    if count > 0 {
        let last = (count - 1) as nat;
        lemma_answered_together_once(state, events, key, last);
        let before = after_events(state, events, last);
        let event = events[last as int];
        let (now, reaction) = lookup_event_step(before, event);
        assert(after_events(state, events, count) == now);
        if before.pending_lookups.contains_key(key) {
            assert(if now.pending_lookups.contains_key(key) {
                now.pending_lookups[key] == before.pending_lookups[key]
            } else {
                reaction.resolution is Some && reaction.resolution->0.waiters
                    == before.pending_lookups[key]
            }) by {
                lemma_waiters_resolved_together(before, event, key);
            }
            if now.pending_lookups.contains_key(key) {
                assert(!answered_at(state, events, key, last)) by {
                    reveal(answered_at);
                }
            } else {
                assert(answered_at(state, events, key, last)) by {
                    reveal(answered_at);
                }
            }
        } else {
            assert(!now.pending_lookups.contains_key(key)) by {
                lemma_event_starts_no_lookup(before, event, key);
            }
            assert(!answered_at(state, events, key, last)) by {
                reveal(answered_at);
            }
            let index = choose|index: nat|
                {
                    &&& index < last
                    &&& #[trigger] answered_at(state, events, key, index)
                    &&& forall|other: nat|
                        other < last && other != index ==> !#[trigger] answered_at(
                            state,
                            events,
                            key,
                            other,
                        )
                };
            assert(index < count && answered_at(state, events, key, index));
        }
    }
}

/// A message answers nobody and ends no lookup.
pub proof fn lemma_message_answers_nobody<W>(state: LookupView<W>, msg: ServiceMsgView<W>)
    ensures
        lookup_message_step(state, msg).1.resolution is None,
        forall|key: Seq<u8>| #[trigger]
            state.pending_lookups.contains_key(key) ==> lookup_message_step(
                state,
                msg,
            ).0.pending_lookups.contains_key(key),
{
}

/// A caller that asks for a key that is being looked up joins the callers
/// that wait for it, and nothing is asked of the network: while a key is
/// pending, no second discovery is started for it.
pub proof fn lemma_one_discovery<W>(state: LookupView<W>, key: Seq<u8>, sender: W)
    requires
        state.pending_lookups.contains_key(key),
    ensures
        ({
            let (joined, reaction) = lookup_message_step(
                state,
                ServiceMsgView::GetData { key, sender },
            );
            &&& reaction == no_reaction::<W>()
            &&& joined.pending_lookups == state.pending_lookups.insert(
                key,
                state.pending_lookups[key].push(sender),
            )
            &&& joined.lookup_peers == state.lookup_peers
        }),
{
}

/// Two callers ask for the same key before anything is known of it: one
/// discovery is started, by the first of them, and whatever event comes next
/// either leaves both waiting or answers both with the same result.
pub proof fn lemma_fan_in<W>(
    state: LookupView<W>,
    key: Seq<u8>,
    first: W,
    second: W,
    event: EventView,
)
    requires
        !state.pending_lookups.contains_key(key),
    ensures
        ({
            let (asked, started) = lookup_message_step(
                state,
                ServiceMsgView::GetData { key, sender: first },
            );
            let (joined, nothing) = lookup_message_step(
                asked,
                ServiceMsgView::GetData { key, sender: second },
            );
            let (next, reaction) = lookup_event_step(joined, event);
            &&& started.requests == seq![NetworkRequestView::FindFirstProvider { key }]
            &&& started.resolution is None
            &&& nothing == no_reaction::<W>()
            &&& joined.pending_lookups[key] == seq![first, second]
            &&& joined.lookup_peers == state.lookup_peers
            &&& if next.pending_lookups.contains_key(key) {
                next.pending_lookups[key] == seq![first, second]
            } else {
                &&& reaction.resolution is Some
                &&& reaction.resolution->0.waiters == seq![first, second]
            }
        }),
{
    let (asked, started) = lookup_message_step(
        state,
        ServiceMsgView::GetData { key, sender: first },
    );
    let (joined, nothing) = lookup_message_step(
        asked,
        ServiceMsgView::GetData { key, sender: second },
    );
    assert(joined.pending_lookups[key] =~= seq![first, second]);
    lemma_waiters_resolved_together(joined, event, key);
}

/// Discovery that reports no provider, or that times out, answers the
/// callers that wait for the key with "not found" at once, and asks nothing
/// of the network.
pub proof fn lemma_empty_discovery<W>(state: LookupView<W>, key: Seq<u8>)
    requires
        state.pending_lookups.contains_key(key),
    ensures
        ({
            let answer = ReactionView {
                requests: Seq::empty(),
                resolution: Some(
                    ResolutionView { waiters: state.pending_lookups[key], result: None },
                ),
            };
            let empty = lookup_event_step(
                state,
                EventView::FoundProviders { key, providers: Seq::empty() },
            );
            let failed = lookup_event_step(state, EventView::FoundProvidersFailed { key });
            &&& empty.1 == answer
            &&& failed.1 == answer
            &&& !empty.0.pending_lookups.contains_key(key)
            &&& !failed.0.pending_lookups.contains_key(key)
        }),
{
}

/// Of two providers of a key the first fails and the second hands over the
/// bytes: the failure answers nobody, and the bytes of the second are the
/// answer for every caller that waits for the key.
pub proof fn lemma_partial_failure<W>(
    state: LookupView<W>,
    key: Seq<u8>,
    first: Seq<u8>,
    second: Seq<u8>,
    data: Seq<u8>,
)
    requires
        state.pending_lookups.contains_key(key),
        first != second,
    ensures
        ({
            let (found, fetches) = lookup_event_step(
                state,
                EventView::FoundProviders { key, providers: seq![first, second] },
            );
            let (failed, silence) = lookup_event_step(
                found,
                EventView::DataReceivedFailed { key, peer: first },
            );
            let (done, answer) = lookup_event_step(
                failed,
                EventView::DataReceived { key, peer: second, data },
            );
            &&& fetches.requests == seq![
                NetworkRequestView::GetData { key, peer: first },
                NetworkRequestView::GetData { key, peer: second },
            ]
            &&& fetches.resolution is None
            &&& silence == no_reaction::<W>()
            &&& answer.requests == Seq::<NetworkRequestView>::empty()
            &&& answer.resolution == Some(
                ResolutionView { waiters: state.pending_lookups[key], result: Some(data) },
            )
            &&& !done.pending_lookups.contains_key(key)
            &&& !done.lookup_peers.contains_key(key)
        }),
{
    let providers = seq![first, second];
    let (found, fetches) = lookup_event_step(
        state,
        EventView::FoundProviders { key, providers },
    );
    assert(fetches.requests =~= seq![
        NetworkRequestView::GetData { key, peer: first },
        NetworkRequestView::GetData { key, peer: second },
    ]);
    assert(providers.no_duplicates());
    lemma_remove_value(providers, first);
    assert(providers[0] == first);
    assert(providers.contains(first));
    assert(providers.remove_value(first).len() == 1);
}

/// While fewer than all providers of a key have failed, the ones that have
/// not are still remembered and the callers still wait.
proof fn lemma_candidates_after_failures<W>(
    state: LookupView<W>,
    key: Seq<u8>,
    providers: Seq<Seq<u8>>,
    failures: Seq<Seq<u8>>,
    count: nat,
)
    requires
        state.pending_lookups.contains_key(key),
        state.lookup_peers.contains_key(key),
        state.lookup_peers[key] == providers,
        providers.no_duplicates(),
        failures.no_duplicates(),
        forall|peer: Seq<u8>| failures.contains(peer) ==> providers.contains(peer),
        count <= failures.len(),
        count < providers.len(),
    ensures
        ({
            let now = after_failures(state, key, failures, count);
            &&& now.pending_lookups == state.pending_lookups
            &&& now.lookup_peers.contains_key(key)
            &&& now.lookup_peers[key].no_duplicates()
            &&& now.lookup_peers[key].len() == providers.len() - count
            &&& forall|peer: Seq<u8>| #[trigger]
                now.lookup_peers[key].contains(peer) <==> providers.contains(peer)
                    && !failures.subrange(0, count as int).contains(peer)
            &&& count > 0 ==> lookup_event_step(
                after_failures(state, key, failures, (count - 1) as nat),
                EventView::DataReceivedFailed { key, peer: failures[count - 1] },
            ).1 == no_reaction::<W>()
        }),
    decreases count,
{
    if count == 0 {
        assert(failures.subrange(0, 0) =~= Seq::<Seq<u8>>::empty());
    } else {
        let before = after_failures(state, key, failures, (count - 1) as nat);
        lemma_candidates_after_failures(state, key, providers, failures, (count - 1) as nat);
        let peer = failures[count - 1];
        let candidates = before.lookup_peers[key];
        lemma_remove_value(candidates, peer);
        assert(failures.contains(peer));
        assert(!failures.subrange(0, count - 1).contains(peer)) by {
            if failures.subrange(0, count - 1).contains(peer) {
                let i = failures.subrange(0, count - 1).index_of(peer);
                assert(failures[i] == peer);
            }
        }
        assert(candidates.contains(peer));
        let rest = candidates.remove_value(peer);
        assert(rest.len() == providers.len() - count);
        let now = after_failures(state, key, failures, count);
        assert(now.lookup_peers[key] == rest);
        assert forall|other: Seq<u8>| #[trigger]
            rest.contains(other) <==> providers.contains(other) && !failures.subrange(
                0,
                count as int,
            ).contains(other) by {
            let shorter = failures.subrange(0, count - 1);
            let longer = failures.subrange(0, count as int);
            assert(longer =~= shorter.push(peer));
            assert(rest.contains(other) <==> candidates.contains(other) && other != peer);
            assert(before.lookup_peers[key].contains(other) <==> providers.contains(other)
                && !shorter.contains(other));
            if shorter.contains(other) {
                let i = shorter.index_of(other);
                assert(longer[i] == other);
            }
            if longer.contains(other) && other != peer {
                let i = longer.index_of(other);
                assert(shorter[i] == other);
            }
            assert(longer[count - 1] == peer);
        }
    }
}

/// Some of the providers of a key fail, but not all, and then one hands
/// over the bytes: no failure answers anybody, and the bytes are the answer
/// for every caller that waits for the key.
pub proof fn lemma_success_after_failures<W>(
    state: LookupView<W>,
    key: Seq<u8>,
    providers: Seq<Seq<u8>>,
    failures: Seq<Seq<u8>>,
    peer: Seq<u8>,
    data: Seq<u8>,
)
    requires
        state.pending_lookups.contains_key(key),
        providers.no_duplicates(),
        failures.no_duplicates(),
        forall|failed: Seq<u8>| failures.contains(failed) ==> providers.contains(failed),
        failures.len() < providers.len(),
    ensures
        ({
            let (found, fetches) = lookup_event_step(
                state,
                EventView::FoundProviders { key, providers },
            );
            let (done, answer) = lookup_event_step(
                after_failures(found, key, failures, failures.len()),
                EventView::DataReceived { key, peer, data },
            );
            &&& fetches.requests == fan_out(key, providers)
            &&& fetches.resolution is None
            &&& forall|count: nat|
                0 < count <= failures.len() ==> #[trigger] lookup_event_step(
                    after_failures(found, key, failures, (count - 1) as nat),
                    EventView::DataReceivedFailed { key, peer: failures[count - 1] },
                ).1 == no_reaction::<W>()
            &&& answer.requests == Seq::<NetworkRequestView>::empty()
            &&& answer.resolution == Some(
                ResolutionView { waiters: state.pending_lookups[key], result: Some(data) },
            )
            &&& !done.pending_lookups.contains_key(key)
            &&& !done.lookup_peers.contains_key(key)
        }),
{
    let (found, fetches) = lookup_event_step(state, EventView::FoundProviders { key, providers });
    assert forall|count: nat| 0 < count <= failures.len() implies #[trigger] lookup_event_step(
        after_failures(found, key, failures, (count - 1) as nat),
        EventView::DataReceivedFailed { key, peer: failures[count - 1] },
    ).1 == no_reaction::<W>() by {
        lemma_candidates_after_failures(found, key, providers, failures, count);
    }
    lemma_candidates_after_failures(found, key, providers, failures, failures.len());
}

/// Every one of the providers of a key fails, in any order: no failure but
/// the last answers anybody, and the last answers every caller that waits
/// for the key with "not found".
pub proof fn lemma_total_failure<W>(
    state: LookupView<W>,
    key: Seq<u8>,
    providers: Seq<Seq<u8>>,
    failures: Seq<Seq<u8>>,
)
    requires
        state.pending_lookups.contains_key(key),
        providers.len() > 0,
        providers.no_duplicates(),
        failures.no_duplicates(),
        failures.len() == providers.len(),
        forall|peer: Seq<u8>| failures.contains(peer) ==> providers.contains(peer),
    ensures
        ({
            let (found, fetches) = lookup_event_step(
                state,
                EventView::FoundProviders { key, providers },
            );
            let last = (providers.len() - 1) as nat;
            let (done, answer) = lookup_event_step(
                after_failures(found, key, failures, last),
                EventView::DataReceivedFailed { key, peer: failures[last as int] },
            );
            &&& fetches.requests == fan_out(key, providers)
            &&& fetches.resolution is None
            &&& forall|count: nat|
                0 < count <= last ==> #[trigger] lookup_event_step(
                    after_failures(found, key, failures, (count - 1) as nat),
                    EventView::DataReceivedFailed { key, peer: failures[count - 1] },
                ).1 == no_reaction::<W>()
            &&& answer.requests == Seq::<NetworkRequestView>::empty()
            &&& answer.resolution == Some(
                ResolutionView { waiters: state.pending_lookups[key], result: None },
            )
            &&& !done.pending_lookups.contains_key(key)
            &&& !done.lookup_peers.contains_key(key)
        }),
{
    let (found, fetches) = lookup_event_step(state, EventView::FoundProviders { key, providers });
    let last = (providers.len() - 1) as nat;
    assert forall|count: nat| 0 < count <= last implies #[trigger] lookup_event_step(
        after_failures(found, key, failures, (count - 1) as nat),
        EventView::DataReceivedFailed { key, peer: failures[count - 1] },
    ).1 == no_reaction::<W>() by {
        lemma_candidates_after_failures(found, key, providers, failures, count);
    }
    lemma_candidates_after_failures(found, key, providers, failures, last);
    let before = after_failures(found, key, failures, last);
    let peer = failures[last as int];
    let candidates = before.lookup_peers[key];
    lemma_remove_value(candidates, peer);
    assert(candidates.len() == 1);
    assert(failures.contains(peer));
    assert(!failures.subrange(0, last as int).contains(peer)) by {
        if failures.subrange(0, last as int).contains(peer) {
            let i = failures.subrange(0, last as int).index_of(peer);
            assert(failures[i] == peer);
        }
    }
    assert(candidates.contains(peer));
}

} // verus!
