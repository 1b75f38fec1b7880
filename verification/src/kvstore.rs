//! The key-value store that the host keeps between invocations.

use vstd::prelude::*;
use crate::hostcalls;
use crate::hostcalls::buffer::{ByteState, ByteTransfer, Step};
use crate::hostcalls::types::GuestSlice;

verus! {

/// The guest's side of the store. The keys and the values are with the host.
pub struct KVStore {
    _private: (),
}

impl KVStore {
    /// The one store there is.
    pub fn global() -> KVStore {
        KVStore { _private: () }
    }

    /// What the host's answer to a lookup means. A key that was not found has
    /// no value; otherwise the value is what the transfer of `value` yields.
    pub fn get(&self, found: bool, value: GuestSlice) -> (started: Option<(ByteTransfer, Step)>)
        ensures
            !found ==> started is None,
            found ==> (started matches Some(s) && (s.0@, s.1) == ByteState::begin(value)
                && s.0@.wf()),
    {
        hostcalls::kvstore_get(found, value)
    }
}

} // verus!
