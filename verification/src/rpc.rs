//! The lookup coordinator: many callers that ask for one key share one lookup.

use crate::key::RecordKey;
use vstd::prelude::*;

pub mod laws;
pub mod worker;

pub use crate::rpc::worker::Worker;

verus! {

/// A message for the lookup coordinator. `W` is what a waiting caller is
/// answered through.
#[derive(Debug, PartialEq, Eq)]
pub enum ServiceMsg<W> {
    /// Publish `data` under `key`.
    PutData { key: RecordKey, data: Vec<u8> },
    /// Fetch the bytes of `key` and answer through `sender`.
    GetData { key: RecordKey, sender: W },
}

/// A message for the lookup coordinator, as plain values.
pub enum ServiceMsgView<W> {
    PutData { key: Seq<u8>, data: Seq<u8> },
    GetData { key: Seq<u8>, sender: W },
}

impl<W> View for ServiceMsg<W> {
    type V = ServiceMsgView<W>;

    open spec fn view(&self) -> ServiceMsgView<W> {
        match *self {
            ServiceMsg::PutData { key, data } => ServiceMsgView::PutData { key: key@, data: data@ },
            ServiceMsg::GetData { key, sender } => ServiceMsgView::GetData { key: key@, sender },
        }
    }
}

} // verus!
