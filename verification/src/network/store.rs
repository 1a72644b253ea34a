//! Where the local content store keeps the bytes of a key.

use crate::encoding::{encode_hex, hex_of, lemma_hex_of_injective};
use crate::key::RecordKey;
use vstd::prelude::*;
use vstd::string::StringExecFns;

verus! {

/// The directory of the content store, below the node's base path.
pub const DX_DIR: &'static str = "dx/data/";

/// The name of the file that holds the bytes of a key: the key in lowercase
/// hexadecimal.
pub open spec fn file_name_of(key: Seq<u8>) -> Seq<char> {
    hex_of(key)
}

/// Different keys are kept in different files.
pub proof fn lemma_file_names_differ(a: Seq<u8>, b: Seq<u8>)
    requires
        a != b,
    ensures
        file_name_of(a) != file_name_of(b),
{
    if file_name_of(a) == file_name_of(b) {
        lemma_hex_of_injective(a, b);
    }
}

/// The name of the file that holds the bytes of `key`.
pub fn file_name(key: &RecordKey) -> (name: String)
    ensures
        name@ == file_name_of(key@),
{
    encode_hex(key.as_bytes().as_slice())
}

/// The path of the file that holds the bytes of `key`, relative to the
/// node's base path.
pub fn file_path(key: &RecordKey) -> (path: String)
    ensures
        path@ == DX_DIR@ + file_name_of(key@),
{
    let name = file_name(key);
    let mut path = String::from_str(DX_DIR);
    path.append(name.as_str());
    path
}

} // verus!
