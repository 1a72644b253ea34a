use airo_dx::execution::rpc::{DhtEvent, DhtRequest, NetworkProvider, Worker};
use airo_dx::key::RecordKey;
use airo_dx::rpc::worker::Resolution;
use airo_dx::rpc::ServiceMsg;
use futures::channel::oneshot;
use std::cell::RefCell;
use std::collections::{HashMap, VecDeque};

type Answer = oneshot::Sender<Option<Vec<u8>>>;

struct TestNetwork {
    dht: RefCell<HashMap<Vec<u8>, Vec<u8>>>,
    events: RefCell<VecDeque<DhtEvent>>,
}

impl TestNetwork {
    fn new() -> Self {
        Self { dht: RefCell::new(HashMap::new()), events: RefCell::new(VecDeque::new()) }
    }
}

impl NetworkProvider for TestNetwork {
    fn get_value(&self, key: &RecordKey) {
        let event = match self.dht.borrow().get(&key.to_vec()) {
            Some(value) => DhtEvent::ValueFound(vec![(key.clone(), value.clone())]),
            None => DhtEvent::ValueNotFound(key.clone()),
        };

        self.events.borrow_mut().push_back(event);
    }

    fn put_value(&self, key: RecordKey, value: Vec<u8>) {
        self.dht.borrow_mut().insert(key.to_vec(), value);
        self.events.borrow_mut().push_back(DhtEvent::Other);
    }
}

fn run(worker: &mut Worker<Answer>, network: &TestNetwork, msg: ServiceMsg<Answer>) {
    worker.handle_message(msg).send_to(network);
    loop {
        let event = network.events.borrow_mut().pop_front();
        match event {
            Some(event) => {
                if let Some(Resolution { waiters, result }) = worker.handle_dht_event(event) {
                    for sender in waiters {
                        let _ = sender.send(result.clone());
                    }
                }
            },
            None => return,
        }
    }
}

fn put_data(worker: &mut Worker<Answer>, network: &TestNetwork, key: RecordKey, data: Vec<u8>) {
    run(worker, network, ServiceMsg::PutData { key, data });
}

fn fetch(worker: &mut Worker<Answer>, network: &TestNetwork, key: RecordKey) -> Option<Vec<u8>> {
    let (sender, mut receiver) = oneshot::channel();
    run(worker, network, ServiceMsg::GetData { key, sender });
    receiver.try_recv().ok().flatten().flatten()
}

#[test]
fn get_data() {
    let network = TestNetwork::new();
    let mut worker = Worker::new();

    let key = RecordKey::new(Vec::from("key"));
    let value = Vec::from("value");

    put_data(&mut worker, &network, key.clone(), value.clone());
    assert_eq!(Some(value), fetch(&mut worker, &network, key));
}

#[test]
fn value_that_is_not_there_is_not_found() {
    let network = TestNetwork::new();
    let mut worker = Worker::new();
    assert_eq!(None, fetch(&mut worker, &network, RecordKey::new(Vec::from("key"))));
}

#[test]
fn every_caller_asks_the_store_and_all_are_answered_together() {
    let key = RecordKey::new(vec![1]);
    let mut worker: Worker<u32> = Worker::new();
    assert_eq!(
        worker.handle_message(ServiceMsg::GetData { key: key.clone(), sender: 1 }),
        DhtRequest::GetValue { key: key.clone() }
    );
    assert_eq!(
        worker.handle_message(ServiceMsg::GetData { key: key.clone(), sender: 2 }),
        DhtRequest::GetValue { key: key.clone() }
    );
    assert_eq!(
        worker.handle_message(ServiceMsg::PutData { key: key.clone(), data: vec![5] }),
        DhtRequest::PutValue { key: key.clone(), value: vec![5] }
    );
    assert_eq!(worker.handle_dht_event(DhtEvent::Other), None);
    assert_eq!(worker.handle_dht_event(DhtEvent::ValueFound(vec![])), None);
    assert_eq!(
        worker.handle_dht_event(DhtEvent::ValueFound(vec![
            (key.clone(), vec![5]),
            (RecordKey::new(vec![2]), vec![6]),
        ])),
        Some(Resolution { waiters: vec![1, 2], result: Some(vec![5]) })
    );
    assert_eq!(worker.handle_dht_event(DhtEvent::ValueNotFound(key.clone())), None);
    let _ = worker.handle_message(ServiceMsg::GetData { key: key.clone(), sender: 3 });
    assert_eq!(
        worker.handle_dht_event(DhtEvent::ValueNotFound(key)),
        Some(Resolution { waiters: vec![3], result: None })
    );
}
