//! The payloads of the transfer protocol and the names of the two wire protocols.

use crate::encoding::{bytes2hex, hex_of, lemma_hex_of_injective};
use vstd::prelude::*;
use vstd::string::StringExecFns;

verus! {

/// What one peer asks of another: the bytes stored under a key.
#[derive(Debug, PartialEq, Eq)]
pub struct DataRequest {
    pub key: Vec<u8>,
}

/// The answer to a `DataRequest`: the bytes stored under its key.
#[derive(Debug, PartialEq, Eq)]
pub struct DataResponse {
    pub data: Vec<u8>,
}

/// The name of a wire protocol on the network with the given identifier: the
/// literal prefix, the identifier in lowercase hexadecimal, and the protocol's
/// tag, each behind a slash.
pub open spec fn protocol_name(name: Seq<char>, genesis_hash: Seq<u8>) -> Seq<char> {
    "/dx/"@ + hex_of(genesis_hash) + "/"@ + name
}

/// Two networks whose identifiers differ share no protocol name, whatever the tags.
pub proof fn lemma_protocol_names_differ(
    name_a: Seq<char>,
    hash_a: Seq<u8>,
    name_b: Seq<char>,
    hash_b: Seq<u8>,
)
    requires
        hash_a != hash_b,
    ensures
        protocol_name(name_a, hash_a) != protocol_name(name_b, hash_b),
{
    reveal_strlit("/dx/");
    reveal_strlit("/");
    let a = protocol_name(name_a, hash_a);
    let b = protocol_name(name_b, hash_b);
    let hex_a = hex_of(hash_a);
    let hex_b = hex_of(hash_b);
    if a == b {
        let len_a = hex_a.len() as int;
        let len_b = hex_b.len() as int;
        if len_a < len_b {
            assert(a[4 + len_a] == '/');
            assert(b[4 + len_a] == hex_b[len_a]);
        } else if len_b < len_a {
            assert(b[4 + len_b] == '/');
            assert(a[4 + len_b] == hex_a[len_b]);
        } else {
            assert forall|i: int| 0 <= i < hex_a.len() implies hex_a[i] == hex_b[i] by {
                assert(a[4 + i] == hex_a[i]);
                assert(b[4 + i] == hex_b[i]);
            }
            assert(hex_a =~= hex_b);
            lemma_hex_of_injective(hash_a, hash_b);
        }
    }
}

/// Builds the name of the wire protocol with tag `name` on the network whose
/// identifier is `genesis_hash`. The name always begins with a slash.
pub fn protocol(name: &str, genesis_hash: &[u8]) -> (protocol: String)
    ensures
        protocol@ == protocol_name(name@, genesis_hash@),
        protocol@.len() > 0,
        protocol@[0] == '/',
{
    let genesis_hash_hex = bytes2hex("", genesis_hash);
    proof {
        reveal_strlit("");
        reveal_strlit("/dx/");
        reveal_strlit("/");
        assert(genesis_hash_hex@ =~= hex_of(genesis_hash@));
    }
    let mut protocol = String::from_str("/dx/");
    protocol.append(genesis_hash_hex.as_str());
    protocol.append("/");
    protocol.append(name);
    protocol
}

} // verus!
