//! The transfer worker: the commands it takes, the events it tells, and what
//! it asks of the overlay.

use crate::key::{PeerId, RecordKey};
use std::sync::Arc;
use vstd::prelude::*;

pub mod behaviour;
pub mod store;
pub mod worker;

pub use crate::network::worker::{Event as DxEvent, NetworkWorker as DxNetworkWorker};

verus! {

/// A command for the transfer worker. `S` is the sending end of a
/// subscriber's channel.
#[derive(Debug, PartialEq, Eq)]
pub enum ServiceMsg<S> {
    /// Register a subscriber: it is told every event from now on.
    EventStream { sender: S },
    /// Keep `data` under `key` in the local store and announce the key.
    StartProviding { key: RecordKey, data: Vec<u8> },
    /// Look for the providers of `key`.
    FindFirstProvider { key: RecordKey },
    /// Fetch the bytes of `key` from `peer`.
    GetData { key: RecordKey, peer: PeerId },
}

/// A command for the transfer worker, as plain values.
pub enum ServiceMsgView<S> {
    EventStream { sender: S },
    StartProviding { key: Seq<u8>, data: Seq<u8> },
    FindFirstProvider { key: Seq<u8> },
    GetData { key: Seq<u8>, peer: Seq<u8> },
}

impl<S> View for ServiceMsg<S> {
    type V = ServiceMsgView<S>;

    open spec fn view(&self) -> ServiceMsgView<S> {
        match *self {
            ServiceMsg::EventStream { sender } => ServiceMsgView::EventStream { sender },
            ServiceMsg::StartProviding { key, data } => ServiceMsgView::StartProviding {
                key: key@,
                data: data@,
            },
            ServiceMsg::FindFirstProvider { key } => ServiceMsgView::FindFirstProvider { key: key@ },
            ServiceMsg::GetData { key, peer } => ServiceMsgView::GetData { key: key@, peer: peer@ },
        }
    }
}

/// What the lookup coordinator needs of the network: the three commands of
/// the transfer worker that concern content.
pub trait DxNetworkProvider {
    /// Keep `data` under `key` and announce that this node provides it.
    fn start_providing(&self, key: RecordKey, data: Vec<u8>);

    /// Look for the providers of `key`.
    fn find_first_provider(&self, key: RecordKey);

    /// Fetch the bytes of `key` from `peer`.
    fn get_data(&self, key: RecordKey, peer: PeerId);
}

impl<T: DxNetworkProvider + ?Sized> DxNetworkProvider for Arc<T> {
    fn start_providing(&self, key: RecordKey, data: Vec<u8>) {
        (**self).start_providing(key, data)
    }

    fn find_first_provider(&self, key: RecordKey) {
        (**self).find_first_provider(key)
    }

    fn get_data(&self, key: RecordKey, peer: PeerId) {
        (**self).get_data(key, peer)
    }
}

/// One call of a `DxNetworkProvider`, as a value.
#[derive(Debug, PartialEq, Eq)]
pub enum NetworkRequest {
    /// Keep `data` under `key` and announce that this node provides it.
    StartProviding { key: RecordKey, data: Vec<u8> },
    /// Look for the providers of `key`.
    FindFirstProvider { key: RecordKey },
    /// Fetch the bytes of `key` from `peer`.
    GetData { key: RecordKey, peer: PeerId },
}

/// One call of a `DxNetworkProvider`, as plain values.
pub enum NetworkRequestView {
    StartProviding { key: Seq<u8>, data: Seq<u8> },
    FindFirstProvider { key: Seq<u8> },
    GetData { key: Seq<u8>, peer: Seq<u8> },
}

impl View for NetworkRequest {
    type V = NetworkRequestView;

    open spec fn view(&self) -> NetworkRequestView {
        match *self {
            NetworkRequest::StartProviding { key, data } => NetworkRequestView::StartProviding {
                key: key@,
                data: data@,
            },
            NetworkRequest::FindFirstProvider { key } => NetworkRequestView::FindFirstProvider {
                key: key@,
            },
            NetworkRequest::GetData { key, peer } => NetworkRequestView::GetData {
                key: key@,
                peer: peer@,
            },
        }
    }
}

/// The command of the transfer worker that a call stands for.
pub open spec fn command_of<S>(request: NetworkRequestView) -> ServiceMsgView<S> {
    match request {
        NetworkRequestView::StartProviding { key, data } => ServiceMsgView::StartProviding {
            key,
            data,
        },
        NetworkRequestView::FindFirstProvider { key } => ServiceMsgView::FindFirstProvider { key },
        NetworkRequestView::GetData { key, peer } => ServiceMsgView::GetData { key, peer },
    }
}

impl NetworkRequest {
    /// The command that asks the transfer worker for what this call asks.
    pub fn into_msg<S>(self) -> (msg: ServiceMsg<S>)
        ensures
            msg@ == command_of::<S>(self@),
    {
        match self {
            NetworkRequest::StartProviding { key, data } => ServiceMsg::StartProviding {
                key,
                data,
            },
            NetworkRequest::FindFirstProvider { key } => ServiceMsg::FindFirstProvider { key },
            NetworkRequest::GetData { key, peer } => ServiceMsg::GetData { key, peer },
        }
    }

    /// Makes the call on `network`.
    pub fn send_to<N: DxNetworkProvider + ?Sized>(self, network: &N) {
        match self {
            NetworkRequest::StartProviding { key, data } => network.start_providing(key, data),
            NetworkRequest::FindFirstProvider { key } => network.find_first_provider(key),
            NetworkRequest::GetData { key, peer } => network.get_data(key, peer),
        }
    }
}

} // verus!
