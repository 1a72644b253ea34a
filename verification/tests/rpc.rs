use airo_dx::key::{PeerId, PeerSet, RecordKey};
use airo_dx::network::{DxEvent, DxNetworkProvider, NetworkRequest};
use airo_dx::rpc::worker::{Reaction, Resolution};
use airo_dx::rpc::{ServiceMsg, Worker};
use futures::channel::oneshot;
use std::cell::RefCell;
use std::collections::{HashMap, VecDeque};

type Answer = oneshot::Sender<Option<Vec<u8>>>;

struct TestNetwork {
    dx_data: RefCell<HashMap<Vec<u8>, Vec<u8>>>,
    dx_peers: RefCell<HashMap<Vec<u8>, PeerId>>,
    next_peer: RefCell<u8>,
    events: RefCell<VecDeque<DxEvent>>,
}

impl TestNetwork {
    fn new() -> Self {
        Self {
            dx_data: RefCell::new(HashMap::new()),
            dx_peers: RefCell::new(HashMap::new()),
            next_peer: RefCell::new(0),
            events: RefCell::new(VecDeque::new()),
        }
    }
}

impl DxNetworkProvider for TestNetwork {
    fn start_providing(&self, key: RecordKey, data: Vec<u8>) {
        let peer = *self.next_peer.borrow();
        *self.next_peer.borrow_mut() = peer + 1;
        self.dx_data.borrow_mut().insert(key.to_vec(), data);
        self.dx_peers.borrow_mut().insert(key.to_vec(), PeerId::from_bytes(vec![0x12, 0x20, peer]));
        self.events.borrow_mut().push_back(DxEvent::StartProviding { key });
    }

    fn find_first_provider(&self, key: RecordKey) {
        let event = match self.dx_peers.borrow().get(&key.to_vec()) {
            None => DxEvent::FoundProvidersFailed { key },
            Some(peer) => {
                let mut providers = PeerSet::new();
                providers.insert(peer.clone());
                DxEvent::FoundProviders { key, providers }
            },
        };
        self.events.borrow_mut().push_back(event);
    }

    fn get_data(&self, key: RecordKey, peer: PeerId) {
        let event = match self.dx_peers.borrow().get(&key.to_vec()) {
            Some(p) if peer.eq(p) => {
                let data = self.dx_data.borrow().get(&key.to_vec()).unwrap().clone();
                DxEvent::DataReceived { key, peer, data }
            },
            _ => DxEvent::DataReceivedFailed { key, peer },
        };
        self.events.borrow_mut().push_back(event);
    }
}

fn perform(network: &TestNetwork, reaction: Reaction<Answer>) {
    for request in reaction.requests {
        request.send_to(network);
    }
    if let Some(Resolution { waiters, result }) = reaction.resolution {
        for sender in waiters {
            let _ = sender.send(result.clone());
        }
    }
}

fn run(worker: &mut Worker<Answer>, network: &TestNetwork) {
    loop {
        let event = network.events.borrow_mut().pop_front();
        match event {
            Some(event) => {
                let reaction = worker.handle_dx_event(event);
                perform(network, reaction);
            },
            None => return,
        }
    }
}

fn put_data(worker: &mut Worker<Answer>, network: &TestNetwork, key: RecordKey, data: Vec<u8>) {
    let reaction = worker.handle_message(ServiceMsg::PutData { key, data });
    perform(network, reaction);
    run(worker, network);
}

fn fetch(worker: &mut Worker<Answer>, network: &TestNetwork, key: RecordKey) -> Option<Vec<u8>> {
    let (sender, mut receiver) = oneshot::channel();
    let reaction = worker.handle_message(ServiceMsg::GetData { key, sender });
    perform(network, reaction);
    run(worker, network);
    receiver.try_recv().ok().flatten().flatten()
}

#[test]
fn get_existing_data() {
    let network = TestNetwork::new();
    let mut worker = Worker::new();

    let key = RecordKey::new(Vec::from("key"));
    let value = Vec::from("value");

    put_data(&mut worker, &network, key.clone(), value.clone());
    assert_eq!(Some(value), fetch(&mut worker, &network, key));
}

#[test]
fn get_missing_data() {
    let network = TestNetwork::new();
    let mut worker = Worker::new();

    assert_eq!(None, fetch(&mut worker, &network, RecordKey::new(Vec::from("key"))));
}

fn key() -> RecordKey {
    RecordKey::new(vec![1, 2, 3])
}

fn peer(n: u8) -> PeerId {
    PeerId::from_bytes(vec![n])
}

fn providers(peers: &[u8]) -> PeerSet {
    let mut set = PeerSet::new();
    for n in peers {
        set.insert(peer(*n));
    }
    set
}

fn nothing() -> Reaction<u32> {
    Reaction { requests: vec![], resolution: None }
}

fn answer(waiters: Vec<u32>, result: Option<Vec<u8>>) -> Reaction<u32> {
    Reaction { requests: vec![], resolution: Some(Resolution { waiters, result }) }
}

#[test]
fn put_is_forwarded_and_answers_nobody() {
    let mut worker: Worker<u32> = Worker::new();
    let reaction = worker.handle_message(ServiceMsg::PutData { key: key(), data: vec![9, 9] });
    assert_eq!(
        reaction,
        Reaction {
            requests: vec![NetworkRequest::StartProviding { key: key(), data: vec![9, 9] }],
            resolution: None,
        }
    );
    assert!(!worker.is_pending(&key()));
}

#[test]
fn second_caller_joins_the_lookup_of_the_first() {
    let mut worker: Worker<u32> = Worker::new();
    let first = worker.handle_message(ServiceMsg::GetData { key: key(), sender: 1 });
    assert_eq!(
        first,
        Reaction {
            requests: vec![NetworkRequest::FindFirstProvider { key: key() }],
            resolution: None,
        }
    );
    let second = worker.handle_message(ServiceMsg::GetData { key: key(), sender: 2 });
    assert_eq!(second, nothing());
    assert!(worker.is_pending(&key()));

    let found = worker.handle_dx_event(DxEvent::FoundProviders {
        key: key(),
        providers: providers(&[7]),
    });
    assert_eq!(
        found,
        Reaction {
            requests: vec![NetworkRequest::GetData { key: key(), peer: peer(7) }],
            resolution: None,
        }
    );
    let done = worker.handle_dx_event(DxEvent::DataReceived {
        key: key(),
        peer: peer(7),
        data: vec![4, 5],
    });
    assert_eq!(done, answer(vec![1, 2], Some(vec![4, 5])));
    assert!(!worker.is_pending(&key()));
}

#[test]
fn callers_for_other_keys_have_lookups_of_their_own() {
    let mut worker: Worker<u32> = Worker::new();
    let other = RecordKey::new(vec![8]);
    let _ = worker.handle_message(ServiceMsg::GetData { key: key(), sender: 1 });
    let second = worker.handle_message(ServiceMsg::GetData { key: other.clone(), sender: 2 });
    assert_eq!(
        second,
        Reaction {
            requests: vec![NetworkRequest::FindFirstProvider { key: other.clone() }],
            resolution: None,
        }
    );
    let failed = worker.handle_dx_event(DxEvent::FoundProvidersFailed { key: other.clone() });
    assert_eq!(failed, answer(vec![2], None));
    assert!(worker.is_pending(&key()));
    assert!(!worker.is_pending(&other));
}

#[test]
fn second_provider_answers_after_the_first_failed() {
    let mut worker: Worker<u32> = Worker::new();
    let _ = worker.handle_message(ServiceMsg::GetData { key: key(), sender: 1 });
    let found = worker.handle_dx_event(DxEvent::FoundProviders {
        key: key(),
        providers: providers(&[7, 8]),
    });
    assert_eq!(
        found.requests,
        vec![
            NetworkRequest::GetData { key: key(), peer: peer(7) },
            NetworkRequest::GetData { key: key(), peer: peer(8) },
        ]
    );
    assert_eq!(worker.candidates(&key()), Some(&providers(&[8, 7])));
    let failed = worker.handle_dx_event(DxEvent::DataReceivedFailed { key: key(), peer: peer(7) });
    assert_eq!(failed, nothing());
    assert!(worker.is_pending(&key()));
    assert_eq!(worker.candidates(&key()), Some(&providers(&[8])));
    let done = worker.handle_dx_event(DxEvent::DataReceived {
        key: key(),
        peer: peer(8),
        data: vec![6],
    });
    assert_eq!(done, answer(vec![1], Some(vec![6])));
    assert_eq!(worker.candidates(&key()), None);
}

#[test]
fn not_found_comes_with_the_last_failure_only() {
    let mut worker: Worker<u32> = Worker::new();
    let _ = worker.handle_message(ServiceMsg::GetData { key: key(), sender: 1 });
    let _ = worker.handle_dx_event(DxEvent::FoundProviders {
        key: key(),
        providers: providers(&[7, 8, 9]),
    });
    assert_eq!(
        worker.handle_dx_event(DxEvent::DataReceivedFailed { key: key(), peer: peer(9) }),
        nothing()
    );
    assert_eq!(
        worker.handle_dx_event(DxEvent::DataReceivedFailed { key: key(), peer: peer(7) }),
        nothing()
    );
    assert_eq!(
        worker.handle_dx_event(DxEvent::DataReceivedFailed { key: key(), peer: peer(9) }),
        nothing()
    );
    assert_eq!(
        worker.handle_dx_event(DxEvent::DataReceivedFailed { key: key(), peer: peer(8) }),
        answer(vec![1], None)
    );
    assert!(!worker.is_pending(&key()));
    assert_eq!(worker.candidates(&key()), None);
}

#[test]
fn empty_discovery_is_not_found_at_once() {
    let mut worker: Worker<u32> = Worker::new();
    let _ = worker.handle_message(ServiceMsg::GetData { key: key(), sender: 1 });
    let done = worker.handle_dx_event(DxEvent::FoundProviders {
        key: key(),
        providers: PeerSet::new(),
    });
    assert_eq!(done, answer(vec![1], None));
}

#[test]
fn late_answers_change_nothing() {
    let mut worker: Worker<u32> = Worker::new();
    let _ = worker.handle_message(ServiceMsg::GetData { key: key(), sender: 1 });
    let _ = worker.handle_dx_event(DxEvent::FoundProviders {
        key: key(),
        providers: providers(&[7, 8]),
    });
    let _ = worker.handle_dx_event(DxEvent::DataReceived {
        key: key(),
        peer: peer(7),
        data: vec![6],
    });
    assert_eq!(
        worker.handle_dx_event(DxEvent::DataReceived { key: key(), peer: peer(8), data: vec![0] }),
        nothing()
    );
    assert_eq!(
        worker.handle_dx_event(DxEvent::DataReceivedFailed { key: key(), peer: peer(8) }),
        nothing()
    );
}

#[test]
fn announcements_are_of_no_concern() {
    let mut worker: Worker<u32> = Worker::new();
    let _ = worker.handle_message(ServiceMsg::GetData { key: key(), sender: 1 });
    assert_eq!(worker.handle_dx_event(DxEvent::StartProviding { key: key() }), nothing());
    assert_eq!(worker.handle_dx_event(DxEvent::StartProvidingFailed { key: key() }), nothing());
    assert!(worker.is_pending(&key()));
}
