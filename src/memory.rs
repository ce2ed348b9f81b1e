//! A store engine that keeps the revision log in memory, with the
//! visibility query evaluated directly over the rows.
use vstd::prelude::*;

use crate::log::{
    after_delete, after_put, capped, copy_payload, footprint, footprint_below, is_current,
    key_value_at, last_row_below, listing, live_state, lookup, plan_delete, plan_put,
    row_footprint, visible_below, visible_rows, LogEntry, LogEntryView,
};
use crate::text::{chars_of, matches_key};
use crate::traits::{kv_view, KeyValue, NotImplemented};
use crate::Revision;

verus! {

/// An append-only log of rows held in memory. The row at position `i`
/// carries revision `i + 1`.
#[derive(Debug)]
pub struct MemoryBackend {
    rows: Vec<LogEntry>,
}

impl View for MemoryBackend {
    type V = Seq<LogEntryView>;

    closed spec fn view(&self) -> Seq<LogEntryView> {
        self.rows@.map_values(|e: LogEntry| e@)
    }
}

impl MemoryBackend {
    /// Every row's revision fits a `Revision`.
    #[verifier::type_invariant]
    closed spec fn revisions_fit(&self) -> bool {
        self.rows.len() <= Revision::MAX
    }

    /// An empty store.
    pub fn new() -> (r: MemoryBackend)
        ensures
            r@ == Seq::<LogEntryView>::empty(),
    {
        let r = MemoryBackend { rows: Vec::new() };
        assert(r@ =~= Seq::<LogEntryView>::empty());
        r
    }

    /// The revision of the last mutation: the highest row id, 0 when empty.
    pub fn current_revision(&self) -> (r: Revision)
        ensures
            r == self@.len(),
    {
        proof {
            use_type_invariant(self);
        }
        self.rows.len() as Revision
    }

    /// The bytes that the rows hold, saturating at `u64::MAX`.
    pub fn size(&self) -> (r: u64)
        ensures
            r == if footprint(self@) > u64::MAX { u64::MAX as nat } else { footprint(self@) },
    {
        let mut total: u64 = 0;
        let mut i: usize = 0;
        while i < self.rows.len()
            invariant
                i <= self@.len(),
                self@.len() == self.rows@.len(),
                total == if footprint_below(self@, i as int) > u64::MAX {
                    u64::MAX as nat
                } else {
                    footprint_below(self@, i as int)
                },
            decreases self@.len() - i,
        {
            let row = &self.rows[i];
            proof {
                assert(self@[i as int] == row@);
            }
            let name_bytes = row.name.as_str().as_bytes();
            let name_len: usize = name_bytes.len();
            assert(name_len == vstd::utf8::encode_utf8(row.name@).len());
            let mut row_bytes: u64 = name_len as u64;
            match &row.value {
                Some(v) => {
                    row_bytes = row_bytes.saturating_add(v.len() as u64);
                },
                None => {},
            }
            match &row.old_value {
                Some(v) => {
                    row_bytes = row_bytes.saturating_add(v.len() as u64);
                },
                None => {},
            }
            assert(row_bytes == if row_footprint(row@) > u64::MAX {
                u64::MAX as nat
            } else {
                row_footprint(row@)
            });
            assert(footprint_below(self@, i + 1) == footprint_below(self@, i as int) + row_footprint(row@));
            total = total.saturating_add(row_bytes);
            i = i + 1;
        }
        total
    }

    /// Appends `entry` as the row with the next revision.
    fn append(&mut self, entry: LogEntry)
        requires
            old(self)@.len() < Revision::MAX,
        ensures
            final(self)@ == old(self)@.push(entry@),
    {
        let mut rows: Vec<LogEntry> = Vec::new();
        std::mem::swap(&mut self.rows, &mut rows);
        rows.push(entry);
        self.rows = rows;
        assert(self@ =~= old(self)@.push(entry@));
    }

    /// The record that the row at position `i` projects to.
    fn key_value_at(&self, i: usize) -> (r: KeyValue)
        requires
            i < self@.len(),
        ensures
            r@ == key_value_at(self@, i as int),
    {
        proof {
            use_type_invariant(self);
        }
        let row = &self.rows[i];
        KeyValue::new(
            row.name.clone(),
            row.create_revision,
            (i + 1) as Revision,
            copy_payload(&row.value),
            row.lease,
        )
    }

    /// Whether the row at position `i` is the current row of its key.
    fn is_current_at(&self, i: usize) -> (r: bool)
        requires
            i < self@.len(),
        ensures
            r == is_current(self@, i as int),
    {
        proof {
            use_type_invariant(self);
        }
        let mut j: usize = i + 1;
        while j < self.rows.len()
            invariant
                i < j <= self@.len(),
                self@.len() == self.rows@.len(),
                forall|k: int| i < k < j ==> #[trigger] self@[k].name != self@[i as int].name,
            decreases self@.len() - j,
        {
            assert(self@[j as int].name == self.rows@[j as int].name@);
            assert(self@[i as int].name == self.rows@[i as int].name@);
            if self.rows[j].name == self.rows[i].name {
                return false;
            }
            j = j + 1;
        }
        true
    }

    /// The live state of exactly the key `name`.
    fn live_state_of(&self, name: &String) -> (r: Option<KeyValue>)
        ensures
            kv_view(r) == live_state(self@, name@),
    {
        let mut n: usize = self.rows.len();
        while n > 0
            invariant
                n <= self@.len(),
                self@.len() == self.rows@.len(),
                last_row_below(self@, name@, self@.len() as int) == last_row_below(self@, name@, n as int),
            decreases n,
        {
            if self.rows[n - 1].name == *name {
                if self.rows[n - 1].deleted {
                    return None;
                }
                return Some(self.key_value_at(n - 1));
            }
            n = n - 1;
        }
        None
    }

    /// The current records whose keys fall under `prefix`, in ascending
    /// revision order, tombstones only if `include_deleted`, and at most
    /// `limit` of them where `limit` is positive.
    pub fn list_current(&self, prefix: &str, limit: i64, include_deleted: bool) -> (r: Vec<KeyValue>)
        ensures
            r@.map_values(|kv: KeyValue| kv@) == listing(self@, prefix@, limit, include_deleted),
    {
        let prefix_chars = chars_of(prefix);
        let mut out: Vec<KeyValue> = Vec::new();
        let mut i: usize = 0;
        while i < self.rows.len()
            invariant
                i <= self@.len(),
                self@.len() == self.rows@.len(),
                prefix_chars@ == prefix@,
                out@.map_values(|kv: KeyValue| kv@) == capped(visible_below(self@, prefix@, include_deleted, i as int), limit).map_values(
                    |k: int| key_value_at(self@, k),
                ),
            decreases self@.len() - i,
        {
            let ghost before = visible_below(self@, prefix@, include_deleted, i as int);
            assert(out@.len() == out@.map_values(|kv: KeyValue| kv@).len());
            assert(out@.len() == capped(before, limit).len());
            let row = &self.rows[i];
            assert(row@ == self@[i as int]);
            if matches_key(&prefix_chars, row.name.as_str()) && (include_deleted || !row.deleted)
                && self.is_current_at(i) {
                if limit <= 0 || (out.len() as i64) < limit {
                    let kv = self.key_value_at(i);
                    let ghost prev = out@;
                    out.push(kv);
                    assert(capped(before.push(i as int), limit) =~= capped(before, limit).push(i as int));
                    assert(out@.map_values(|kv: KeyValue| kv@) =~= prev.map_values(|kv: KeyValue| kv@).push(
                        key_value_at(self@, i as int),
                    ));
                    assert(capped(before.push(i as int), limit).map_values(|k: int| key_value_at(self@, k))
                        =~= capped(before, limit).map_values(|k: int| key_value_at(self@, k)).push(
                        key_value_at(self@, i as int),
                    ));
                } else {
                    assert(capped(before.push(i as int), limit) =~= capped(before, limit));
                }
            }
            i = i + 1;
        }
        out
    }

    /// The number of live keys under `prefix`.
    pub fn count(&self, prefix: &str) -> (r: u64)
        ensures
            r == visible_rows(self@, prefix@, false).len(),
    {
        proof {
            use_type_invariant(self);
        }
        let prefix_chars = chars_of(prefix);
        let mut n: u64 = 0;
        let mut i: usize = 0;
        while i < self.rows.len()
            invariant
                i <= self@.len() <= Revision::MAX,
                self@.len() == self.rows@.len(),
                prefix_chars@ == prefix@,
                n == visible_below(self@, prefix@, false, i as int).len(),
                n <= i,
            decreases self@.len() - i,
        {
            let row = &self.rows[i];
            assert(row@ == self@[i as int]);
            if matches_key(&prefix_chars, row.name.as_str()) && !row.deleted && self.is_current_at(i) {
                n = n + 1;
            }
            i = i + 1;
        }
        n
    }

    /// The current record of `name`: the first record that
    /// `list_current(name, 1, false)` yields. A read at a past revision is
    /// refused.
    pub fn get(&self, name: &str, revision: Option<Revision>) -> (r: Result<Option<KeyValue>, NotImplemented>)
        ensures
            revision is Some ==> r == Err::<Option<KeyValue>, NotImplemented>(NotImplemented { revision: revision->0 }),
            revision is None ==> r is Ok && kv_view(r->Ok_0) == lookup(self@, name@),
    {
        match revision {
            Some(revision) => Err(NotImplemented { revision }),
            None => {
                let mut kvs = self.list_current(name, 1, false);
                let ghost rows = visible_rows(self@, name@, false);
                assert(kvs@.len() == kvs@.map_values(|kv: KeyValue| kv@).len());
                if kvs.len() > 0 {
                    assert(kvs@.map_values(|kv: KeyValue| kv@)[0] == kvs@[0]@);
                    Ok(Some(kvs.swap_remove(0)))
                } else {
                    Ok(None)
                }
            },
        }
    }

    /// Writes `value` under `name` and returns the new revision. The key
    /// keeps its creation revision if it is live, and is created otherwise.
    pub fn put(&mut self, name: &str, value: &[u8]) -> (r: Revision)
        requires
            old(self)@.len() < Revision::MAX,
        ensures
            final(self)@ == after_put(old(self)@, name@, value@),
            r == final(self)@.len(),
    {
        let key = name.to_owned();
        let current = self.live_state_of(&key);
        let entry = plan_put(self.current_revision(), &current, name, value);
        self.append(entry);
        self.current_revision()
    }

    /// Deletes `name` and returns the store's revision afterwards: a new one
    /// if the key was live, the unchanged current one otherwise.
    pub fn delete(&mut self, name: &str) -> (r: Revision)
        requires
            old(self)@.len() < Revision::MAX,
        ensures
            final(self)@ == after_delete(old(self)@, name@),
            r == final(self)@.len(),
    {
        let key = name.to_owned();
        let current = self.live_state_of(&key);
        match plan_delete(&current, name) {
            Some(entry) => {
                self.append(entry);
            },
            None => {},
        }
        self.current_revision()
    }
}

} // verus!
