//! The key-value record that reads hand back to callers.
use vstd::prelude::*;

use crate::Revision;

verus! {

/// The bytes an optional payload holds, as a sequence.
pub open spec fn bytes_view(b: Option<Vec<u8>>) -> Option<Seq<u8>> {
    match b {
        Some(v) => Some(v@),
        None => None,
    }
}

/// The current state of one key: a projection of the log row that last
/// touched it.
#[derive(Debug, Clone)]
pub struct KeyValue {
    pub key: String,
    pub create_revision: Revision,
    pub mod_revision: Revision,
    pub value: Option<Vec<u8>>,
    pub lease: Option<i64>,
}

/// What a `KeyValue` holds, with names and payloads as sequences.
pub struct KeyValueView {
    pub key: Seq<char>,
    pub create_revision: Revision,
    pub mod_revision: Revision,
    pub value: Option<Seq<u8>>,
    pub lease: Option<i64>,
}

impl View for KeyValue {
    type V = KeyValueView;

    open spec fn view(&self) -> KeyValueView {
        KeyValueView {
            key: self.key@,
            create_revision: self.create_revision,
            mod_revision: self.mod_revision,
            value: bytes_view(self.value),
            lease: self.lease,
        }
    }
}

/// The view of an optional record.
pub open spec fn kv_view(o: Option<KeyValue>) -> Option<KeyValueView> {
    match o {
        Some(kv) => Some(kv@),
        None => None,
    }
}

impl KeyValue {
    pub fn new(
        key: String,
        create_revision: Revision,
        mod_revision: Revision,
        value: Option<Vec<u8>>,
        lease: Option<i64>,
    ) -> (r: KeyValue)
        ensures
            r.key == key,
            r.create_revision == create_revision,
            r.mod_revision == mod_revision,
            r.value == value,
            r.lease == lease,
    {
        KeyValue { key, create_revision, mod_revision, value, lease }
    }

    pub fn key(&self) -> (r: &String)
        ensures
            *r == self.key,
    {
        &self.key
    }

    pub fn create_revision(&self) -> (r: &Revision)
        ensures
            *r == self.create_revision,
    {
        &self.create_revision
    }

    pub fn mod_revision(&self) -> (r: &Revision)
        ensures
            *r == self.mod_revision,
    {
        &self.mod_revision
    }

    pub fn value(&self) -> (r: &Option<Vec<u8>>)
        ensures
            *r == self.value,
    {
        &self.value
    }

    pub fn lease(&self) -> (r: &Option<i64>)
        ensures
            *r == self.lease,
    {
        &self.lease
    }
}

} // verus!

verus! {

/// The failure of a read at a past revision: point-in-time reads are part
/// of the contract but not supported yet.
#[derive(Debug, Clone, Copy, PartialEq, Eq)]
pub struct NotImplemented {
    /// The revision that was asked for.
    pub revision: Revision,
}

} // verus!
