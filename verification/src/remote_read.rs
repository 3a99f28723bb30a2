//! Remote storage read requests.
//!
//! A light client asks a full node for storage values together with a proof
//! and checks the proof against a header's state root.  Checking the proof
//! itself is the receiving chain's job; this module only carries the
//! request shape and the hash plumbing around it.

use vstd::prelude::*;

use crate::model::clone_bytes;
use crate::model::Header;

verus! {

/// Remote storage read request: which keys to read, at which block, and
/// against which header to check the returned proof.
#[derive(Debug, Clone, PartialEq, Eq)]
pub struct RemoteReadRequest {
    /// Hash of the block to read at.
    pub block: Vec<u8>,
    /// Header of that block; its state root anchors the proof.
    pub header: Header,
    /// Storage keys to read.
    pub keys: Vec<Vec<u8>>,
    /// How many times to retry the request; `None` means the default.
    pub retry_count: Option<usize>,
}

/// Hash conversion between equal-width hash containers: the bytes are
/// copied through unchanged.
pub fn convert_hash(src: &Vec<u8>) -> (dest: Vec<u8>)
    ensures
        dest@ == src@,
{
    clone_bytes(src)
}

} // verus!
