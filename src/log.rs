//! The append-only revision log: its rows, the visibility query that derives
//! the current state of each key from it, and the rules that decide which row
//! a mutation appends.
use vstd::prelude::*;

use crate::text::{is_hierarchical, key_matches};
use crate::traits::{bytes_view, kv_view, KeyValue, KeyValueView};
use crate::Revision;

verus! {

/// One row of the log, as a mutation hands it to the engine. The engine
/// assigns the row's id, which is also the revision of the mutation.
#[derive(Debug)]
pub struct LogEntry {
    pub name: String,
    /// The row is the first of its key.
    pub created: bool,
    /// The row is a tombstone.
    pub deleted: bool,
    pub create_revision: Revision,
    /// Reserved for chaining a row to its predecessor; mutations leave it unset.
    pub prev_revision: Option<Revision>,
    /// Reserved for expiry; never read.
    pub lease: Option<i64>,
    pub value: Option<Vec<u8>>,
    pub old_value: Option<Vec<u8>>,
}

/// What a `LogEntry` holds, with names and payloads as sequences.
pub struct LogEntryView {
    pub name: Seq<char>,
    pub created: bool,
    pub deleted: bool,
    pub create_revision: Revision,
    pub prev_revision: Option<Revision>,
    pub lease: Option<i64>,
    pub value: Option<Seq<u8>>,
    pub old_value: Option<Seq<u8>>,
}

impl View for LogEntry {
    type V = LogEntryView;

    open spec fn view(&self) -> LogEntryView {
        LogEntryView {
            name: self.name@,
            created: self.created,
            deleted: self.deleted,
            create_revision: self.create_revision,
            prev_revision: self.prev_revision,
            lease: self.lease,
            value: bytes_view(self.value),
            old_value: bytes_view(self.old_value),
        }
    }
}

/// The row that `put(name, value)` appends, given the store's current
/// revision and the key's current live state: an update keeps the key's
/// creation revision and records the value it replaces; a creation takes
/// the revision that the row itself is about to get.
pub open spec fn put_entry(
    current_revision: int,
    current: Option<KeyValueView>,
    name: Seq<char>,
    value: Seq<u8>,
) -> LogEntryView {
    match current {
        Some(kv) => LogEntryView {
            name,
            created: false,
            deleted: false,
            create_revision: kv.create_revision,
            prev_revision: None,
            lease: None,
            value: Some(value),
            old_value: kv.value,
        },
        None => LogEntryView {
            name,
            created: true,
            deleted: false,
            create_revision: (current_revision + 1) as Revision,
            prev_revision: None,
            lease: None,
            value: Some(value),
            old_value: None,
        },
    }
}

/// The tombstone that `delete(name)` appends over the key's live state.
pub open spec fn tombstone_entry(current: KeyValueView, name: Seq<char>) -> LogEntryView {
    LogEntryView {
        name,
        created: false,
        deleted: true,
        create_revision: 0,
        prev_revision: None,
        lease: None,
        value: None,
        old_value: current.value,
    }
}

/// A copy of the bytes of `b`.
pub fn copy_bytes(b: &[u8]) -> (r: Vec<u8>)
    ensures
        r@ == b@,
{
    let mut r: Vec<u8> = Vec::new();
    let mut i: usize = 0;
    while i < b.len()
        invariant
            i <= b@.len(),
            r@ == b@.take(i as int),
        decreases b@.len() - i,
    {
        r.push(b[i]);
        assert(b@.take(i + 1) =~= b@.take(i as int).push(b@[i as int]));
        i = i + 1;
    }
    assert(b@.take(b@.len() as int) =~= b@);
    r
}

/// A copy of an optional payload.
pub fn copy_payload(b: &Option<Vec<u8>>) -> (r: Option<Vec<u8>>)
    ensures
        bytes_view(r) == bytes_view(*b),
{
    match b {
        Some(v) => Some(copy_bytes(v.as_slice())),
        None => None,
    }
}

/// Decides the row that `put(name, value)` appends. `current_revision` is
/// the store's revision before the write and `current` the key's live state,
/// if it has one.
pub fn plan_put(
    current_revision: Revision,
    current: &Option<KeyValue>,
    name: &str,
    value: &[u8],
) -> (r: LogEntry)
    requires
        current_revision < Revision::MAX,
    ensures
        r@ == put_entry(current_revision as int, kv_view(*current), name@, value@),
{
    match current {
        Some(kv) => LogEntry {
            name: name.to_owned(),
            created: false,
            deleted: false,
            create_revision: kv.create_revision,
            prev_revision: None,
            lease: None,
            value: Some(copy_bytes(value)),
            old_value: copy_payload(&kv.value),
        },
        None => LogEntry {
            name: name.to_owned(),
            created: true,
            deleted: false,
            create_revision: current_revision + 1,
            prev_revision: None,
            lease: None,
            value: Some(copy_bytes(value)),
            old_value: None,
        },
    }
}

/// Decides what `delete(name)` appends: a tombstone over the key's live
/// state, or nothing when the key has none.
pub fn plan_delete(current: &Option<KeyValue>, name: &str) -> (r: Option<LogEntry>)
    ensures
        current is None ==> r is None,
        current is Some ==> r is Some && r->0@ == tombstone_entry(current->0@, name@),
{
    match current {
        Some(kv) => Some(
            LogEntry {
                name: name.to_owned(),
                created: false,
                deleted: true,
                create_revision: 0,
                prev_revision: None,
                lease: None,
                value: None,
                old_value: copy_payload(&kv.value),
            },
        ),
        None => None,
    }
}

} // verus!

verus! {

/// The row at position `i` is the current row of its key: no later row
/// concerns the same name.
pub open spec fn is_current(log: Seq<LogEntryView>, i: int) -> bool {
    &&& 0 <= i < log.len()
    &&& forall|j: int| i < j < log.len() ==> #[trigger] log[j].name != log[i].name
}

/// The row at position `i` is one that the visibility query yields for
/// `prefix`: current, under the prefix, and live unless tombstones are asked for.
pub open spec fn is_visible(log: Seq<LogEntryView>, prefix: Seq<char>, include_deleted: bool, i: int) -> bool {
    &&& is_current(log, i)
    &&& key_matches(prefix, log[i].name)
    &&& (include_deleted || !log[i].deleted)
}

/// The positions below `n` of the rows that the visibility query yields, ascending.
pub open spec fn visible_below(log: Seq<LogEntryView>, prefix: Seq<char>, include_deleted: bool, n: int) -> Seq<int>
    decreases n,
{
    if n <= 0 {
        Seq::empty()
    } else {
        let rest = visible_below(log, prefix, include_deleted, n - 1);
        if is_visible(log, prefix, include_deleted, n - 1) {
            rest.push(n - 1)
        } else {
            rest
        }
    }
}

/// The positions of the rows that the visibility query yields, ascending.
pub open spec fn visible_rows(log: Seq<LogEntryView>, prefix: Seq<char>, include_deleted: bool) -> Seq<int> {
    visible_below(log, prefix, include_deleted, log.len() as int)
}

/// The first `limit` of `rows` where `limit` is positive, else all of them.
pub open spec fn capped(rows: Seq<int>, limit: i64) -> Seq<int> {
    if 0 < limit && limit < rows.len() {
        rows.take(limit as int)
    } else {
        rows
    }
}

/// The revision of the row at position `i`: the engine numbers rows from one.
pub open spec fn revision_at(i: int) -> int {
    i + 1
}

/// The record that the row at position `i` projects to.
pub open spec fn key_value_at(log: Seq<LogEntryView>, i: int) -> KeyValueView {
    KeyValueView {
        key: log[i].name,
        create_revision: log[i].create_revision,
        mod_revision: revision_at(i) as Revision,
        value: log[i].value,
        lease: log[i].lease,
    }
}

/// What `list_current(prefix, limit, include_deleted)` returns.
pub open spec fn listing(log: Seq<LogEntryView>, prefix: Seq<char>, limit: i64, include_deleted: bool) -> Seq<KeyValueView> {
    capped(visible_rows(log, prefix, include_deleted), limit).map_values(|i: int| key_value_at(log, i))
}

/// What `get(name)` returns: the first record of the listing for `name`.
pub open spec fn lookup(log: Seq<LogEntryView>, name: Seq<char>) -> Option<KeyValueView> {
    let rows = visible_rows(log, name, false);
    if rows.len() > 0 {
        Some(key_value_at(log, rows[0]))
    } else {
        None
    }
}

/// The position of the last row below `n` whose name is `name`.
pub open spec fn last_row_below(log: Seq<LogEntryView>, name: Seq<char>, n: int) -> Option<int>
    decreases n,
{
    if n <= 0 {
        None
    } else if log[n - 1].name == name {
        Some(n - 1)
    } else {
        last_row_below(log, name, n - 1)
    }
}

/// The live state of exactly the key `name`: its current row, unless that
/// is a tombstone. Mutations look a key up this way.
pub open spec fn live_state(log: Seq<LogEntryView>, name: Seq<char>) -> Option<KeyValueView> {
    match last_row_below(log, name, log.len() as int) {
        Some(i) => if log[i].deleted {
            None
        } else {
            Some(key_value_at(log, i))
        },
        None => None,
    }
}

/// The number of bytes a payload holds.
pub open spec fn payload_len(b: Option<Seq<u8>>) -> nat {
    match b {
        Some(v) => v.len(),
        None => 0,
    }
}

/// The bytes a row holds: its name in UTF-8 and its two payloads.
pub open spec fn row_footprint(e: LogEntryView) -> nat {
    vstd::utf8::encode_utf8(e.name).len() + payload_len(e.value) + payload_len(e.old_value)
}

/// The bytes held by the rows below `n`.
pub open spec fn footprint_below(log: Seq<LogEntryView>, n: int) -> nat
    decreases n,
{
    if n <= 0 {
        0
    } else {
        footprint_below(log, n - 1) + row_footprint(log[n - 1])
    }
}

/// The bytes held by the whole log.
pub open spec fn footprint(log: Seq<LogEntryView>) -> nat {
    footprint_below(log, log.len() as int)
}

/// The log after `put(name, value)`: one more row, decided from the key's
/// live state.
pub open spec fn after_put(log: Seq<LogEntryView>, name: Seq<char>, value: Seq<u8>) -> Seq<LogEntryView> {
    log.push(put_entry(log.len() as int, live_state(log, name), name, value))
}

/// The log after `delete(name)`: a tombstone if the key is live, else unchanged.
pub open spec fn after_delete(log: Seq<LogEntryView>, name: Seq<char>) -> Seq<LogEntryView> {
    match live_state(log, name) {
        Some(kv) => log.push(tombstone_entry(kv, name)),
        None => log,
    }
}

} // verus!
