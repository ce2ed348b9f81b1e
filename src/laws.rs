//! What holds of the store across operations, proved over the log model
//! that the operations' contracts use.
use vstd::prelude::*;

use crate::log::{
    after_delete, after_put, is_current, is_visible, last_row_below,
    listing, live_state, lookup, put_entry, visible_below, visible_rows, LogEntryView,
};
use crate::text::{is_hierarchical, key_matches};
use crate::Revision;

verus! {

/// The last row named `name` below `n` has that name, and no row after it
/// below `n` does; without one, no row below `n` has that name.
pub proof fn lemma_last_row_below(log: Seq<LogEntryView>, name: Seq<char>, n: int)
    requires
        0 <= n <= log.len(),
    ensures
        match last_row_below(log, name, n) {
            Some(i) => {
                &&& 0 <= i < n
                &&& log[i].name == name
                &&& forall|j: int| i < j < n ==> #[trigger] log[j].name != name
            },
            None => forall|j: int| 0 <= j < n ==> #[trigger] log[j].name != name,
        },
    decreases n,
{
    if n > 0 {
        lemma_last_row_below(log, name, n - 1);
    }
}

/// For an exact key, the visibility query below `n` yields at most the
/// last row of that key, and that only where it is current and live.
proof fn lemma_exact_visible_below(log: Seq<LogEntryView>, name: Seq<char>, n: int)
    requires
        !is_hierarchical(name),
        0 <= n <= log.len(),
    ensures
        visible_below(log, name, false, n) == match last_row_below(log, name, n) {
            Some(i) => if is_current(log, i) && !log[i].deleted {
                seq![i]
            } else {
                Seq::<int>::empty()
            },
            None => Seq::<int>::empty(),
        },
    decreases n,
{
    if n > 0 {
        lemma_exact_visible_below(log, name, n - 1);
        lemma_last_row_below(log, name, n - 1);
        if log[n - 1].name == name {
            match last_row_below(log, name, n - 1) {
                Some(i) => {
                    assert(log[n - 1].name == log[i].name);
                    assert(!is_current(log, i));
                },
                None => {},
            }
            assert(visible_below(log, name, false, n - 1) =~= Seq::<int>::empty());
        }
    }
}

/// For a key without a trailing separator, what `get` reads is the key's
/// live state, and the key counts once if it is live and never otherwise.
pub proof fn lemma_lookup_exact(log: Seq<LogEntryView>, name: Seq<char>)
    requires
        !is_hierarchical(name),
    ensures
        lookup(log, name) == live_state(log, name),
        visible_rows(log, name, false).len() == if live_state(log, name) is Some { 1int } else { 0int },
{
    lemma_exact_visible_below(log, name, log.len() as int);
    lemma_last_row_below(log, name, log.len() as int);
    match last_row_below(log, name, log.len() as int) {
        Some(i) => {
            assert(is_current(log, i));
        },
        None => {},
    }
}

/// The first mutation of an empty store has revision 1.
pub proof fn law_first_revision_is_one(name: Seq<char>, value: Seq<u8>)
    ensures
        after_put(Seq::empty(), name, value).len() == 1,
{
}

/// Every mutation that writes a row, to whichever key, returns a revision
/// strictly greater than the one before it: revisions increase across all
/// keys together.
pub proof fn law_revisions_strictly_increase(
    log: Seq<LogEntryView>,
    name: Seq<char>,
    value: Seq<u8>,
    other: Seq<char>,
    other_value: Seq<u8>,
)
    ensures
        after_put(log, name, value).len() == log.len() + 1,
        after_put(after_put(log, name, value), other, other_value).len() > after_put(log, name, value).len(),
        live_state(after_put(log, name, value), other) is Some ==> after_delete(after_put(log, name, value), other).len()
            > after_put(log, name, value).len(),
{
}

/// After `put(name, value)`, `get(name)` reads back `value`, under the
/// revision that the put returned.
pub proof fn law_put_then_get(log: Seq<LogEntryView>, name: Seq<char>, value: Seq<u8>)
    requires
        !is_hierarchical(name),
        log.len() < Revision::MAX,
    ensures
        lookup(after_put(log, name, value), name) is Some,
        lookup(after_put(log, name, value), name)->0.value == Some(value),
        lookup(after_put(log, name, value), name)->0.mod_revision == after_put(log, name, value).len(),
{
    let after = after_put(log, name, value);
    lemma_lookup_exact(after, name);
    assert(after[log.len() as int].name == name);
}

/// A put over a live key keeps the key's creation revision and moves its
/// modification revision forward to the put's revision; a put over an
/// absent key creates it with both revisions equal to the put's revision.
pub proof fn law_put_revisions(log: Seq<LogEntryView>, name: Seq<char>, value: Seq<u8>)
    requires
        !is_hierarchical(name),
        log.len() < Revision::MAX,
    ensures
        lookup(log, name) is Some ==> {
            &&& lookup(after_put(log, name, value), name)->0.create_revision == lookup(log, name)->0.create_revision
            &&& lookup(after_put(log, name, value), name)->0.mod_revision == log.len() + 1
            &&& lookup(after_put(log, name, value), name)->0.mod_revision > lookup(log, name)->0.mod_revision
        },
        lookup(log, name) is None ==> {
            &&& lookup(after_put(log, name, value), name)->0.create_revision == log.len() + 1
            &&& lookup(after_put(log, name, value), name)->0.mod_revision == log.len() + 1
        },
{
    let after = after_put(log, name, value);
    lemma_lookup_exact(log, name);
    lemma_lookup_exact(after, name);
    lemma_last_row_below(log, name, log.len() as int);
    assert(after[log.len() as int].name == name);
}

/// After deleting a live key, `get` finds nothing and the key counts zero.
pub proof fn law_delete_then_get(log: Seq<LogEntryView>, name: Seq<char>)
    requires
        !is_hierarchical(name),
        lookup(log, name) is Some,
    ensures
        lookup(after_delete(log, name), name) is None,
        visible_rows(after_delete(log, name), name, false).len() == 0,
{
    lemma_lookup_exact(log, name);
    let after = after_delete(log, name);
    lemma_lookup_exact(after, name);
    assert(after[log.len() as int].name == name);
}

/// Deleting a key that is not live writes nothing, so the store's revision
/// stays as it was; deleting twice is deleting once.
pub proof fn law_delete_idempotent(log: Seq<LogEntryView>, name: Seq<char>)
    ensures
        live_state(log, name) is None ==> after_delete(log, name) == log,
        after_delete(after_delete(log, name), name) == after_delete(log, name),
{
    let after = after_delete(log, name);
    if live_state(log, name) is Some {
        assert(after[log.len() as int].name == name);
    }
}

/// Deleting a name that no row was ever written under, such as a
/// hierarchical prefix without its trailing separator, changes nothing:
/// the revision stays and every listing stays as it was.
pub proof fn law_delete_unwritten_name(log: Seq<LogEntryView>, name: Seq<char>, prefix: Seq<char>, limit: i64)
    requires
        forall|j: int| 0 <= j < log.len() ==> #[trigger] log[j].name != name,
    ensures
        after_delete(log, name) == log,
        listing(after_delete(log, name), prefix, limit, false) == listing(log, prefix, limit, false),
{
    lemma_last_row_below(log, name, log.len() as int);
    match last_row_below(log, name, log.len() as int) {
        Some(i) => {
            assert(log[i].name == name);
        },
        None => {},
    }
}

/// Appending a live row for a key that already has a live current row `i`
/// retires `i` and changes no other row's visibility.
proof fn lemma_update_visibility(log: Seq<LogEntryView>, name: Seq<char>, e: LogEntryView, prefix: Seq<char>, j: int)
    requires
        live_state(log, name) is Some,
        e.name == name,
        0 <= j < log.len(),
    ensures
        is_visible(log.push(e), prefix, false, j) == (is_visible(log, prefix, false, j)
            && j != last_row_below(log, name, log.len() as int)->0),
        is_visible(log, prefix, false, last_row_below(log, name, log.len() as int)->0) == key_matches(prefix, name),
{
    let after = log.push(e);
    let i = last_row_below(log, name, log.len() as int)->0;
    lemma_last_row_below(log, name, log.len() as int);
    assert(after[j] == log[j]);
    assert(after[log.len() as int].name == name);
    assert(is_current(log, i));
    if is_current(log, j) && j != i && log[j].name == name {
        if j < i {
            assert(log[i].name == log[j].name);
        }
    }
    if is_current(after, j) {
        assert forall|k: int| j < k < log.len() implies #[trigger] log[k].name != log[j].name by {
            assert(after[k] == log[k]);
        }
    }
    if is_current(log, j) && log[j].name != name {
        assert forall|k: int| j < k < after.len() implies #[trigger] after[k].name != after[j].name by {
            if k < log.len() {
                assert(after[k] == log[k]);
            }
        }
    }
}

/// Below `n`, the updated log yields one row fewer than the old one exactly
/// where the retired row `i` stood below `n` and matched the prefix.
proof fn lemma_update_visible_below(log: Seq<LogEntryView>, name: Seq<char>, e: LogEntryView, prefix: Seq<char>, n: int)
    requires
        live_state(log, name) is Some,
        e.name == name,
        0 <= n <= log.len(),
    ensures
        visible_below(log.push(e), prefix, false, n).len() + (if last_row_below(log, name, log.len() as int)->0 < n
            && key_matches(prefix, name) { 1int } else { 0int }) == visible_below(log, prefix, false, n).len(),
    decreases n,
{
    lemma_last_row_below(log, name, log.len() as int);
    if n > 0 {
        let after = log.push(e);
        lemma_update_visible_below(log, name, e, prefix, n - 1);
        lemma_update_visibility(log, name, e, prefix, n - 1);
        let new_rest = visible_below(after, prefix, false, n - 1);
        let old_rest = visible_below(log, prefix, false, n - 1);
        if is_visible(after, prefix, false, n - 1) {
            assert(visible_below(after, prefix, false, n) == new_rest.push(n - 1));
        } else {
            assert(visible_below(after, prefix, false, n) == new_rest);
        }
        if is_visible(log, prefix, false, n - 1) {
            assert(visible_below(log, prefix, false, n) == old_rest.push(n - 1));
        } else {
            assert(visible_below(log, prefix, false, n) == old_rest);
        }
    }
}

/// Writing a new value under a live key leaves the count under every prefix
/// as it was, and still advances the store's revision.
pub proof fn law_update_keeps_count(log: Seq<LogEntryView>, name: Seq<char>, value: Seq<u8>, prefix: Seq<char>)
    requires
        live_state(log, name) is Some,
    ensures
        visible_rows(after_put(log, name, value), prefix, false).len() == visible_rows(log, prefix, false).len(),
        after_put(log, name, value).len() > log.len(),
{
    let e = put_entry(log.len() as int, live_state(log, name), name, value);
    let after = log.push(e);
    lemma_update_visible_below(log, name, e, prefix, log.len() as int);
    lemma_last_row_below(log, name, log.len() as int);
    assert(is_current(after, log.len() as int));
    assert(after[log.len() as int] == e);
}

/// The rows that the visibility query yields below `n` stand below `n`,
/// in strictly ascending order.
proof fn lemma_visible_below_ascending(log: Seq<LogEntryView>, prefix: Seq<char>, include_deleted: bool, n: int)
    requires
        0 <= n <= log.len(),
    ensures
        forall|a: int| 0 <= a < visible_below(log, prefix, include_deleted, n).len()
            ==> 0 <= #[trigger] visible_below(log, prefix, include_deleted, n)[a] < n,
        forall|a: int, b: int| 0 <= a < b < visible_below(log, prefix, include_deleted, n).len()
            ==> #[trigger] visible_below(log, prefix, include_deleted, n)[a]
                < #[trigger] visible_below(log, prefix, include_deleted, n)[b],
    decreases n,
{
    if n > 0 {
        lemma_visible_below_ascending(log, prefix, include_deleted, n - 1);
        let rest = visible_below(log, prefix, include_deleted, n - 1);
        let all = visible_below(log, prefix, include_deleted, n);
        assert forall|a: int| 0 <= a < all.len() implies #[trigger] all[a] == if a < rest.len() {
            rest[a]
        } else {
            n - 1
        } by {}
        assert forall|a: int| 0 <= a < all.len() implies 0 <= #[trigger] all[a] < n by {
            if a < rest.len() {
                assert(all[a] == rest[a]);
            }
        }
        assert forall|a: int, b: int| 0 <= a < b < all.len() implies #[trigger] all[a] < #[trigger] all[b] by {
            assert(all[a] == rest[a]);
            if b < rest.len() {
                assert(all[b] == rest[b]);
            }
        }
    }
}

/// A listing comes in strictly ascending revision order, and a positive
/// limit keeps its earliest records.
pub proof fn law_listing_ascending(log: Seq<LogEntryView>, prefix: Seq<char>, limit: i64, include_deleted: bool)
    requires
        log.len() <= Revision::MAX,
    ensures
        forall|a: int, b: int| 0 <= a < b < listing(log, prefix, limit, include_deleted).len()
            ==> #[trigger] listing(log, prefix, limit, include_deleted)[a].mod_revision
                < #[trigger] listing(log, prefix, limit, include_deleted)[b].mod_revision,
        0 < limit ==> listing(log, prefix, limit, include_deleted).len() <= limit,
        forall|a: int| 0 <= a < listing(log, prefix, limit, include_deleted).len()
            ==> #[trigger] listing(log, prefix, limit, include_deleted)[a] == listing(log, prefix, 0, include_deleted)[a],
{
    lemma_visible_below_ascending(log, prefix, include_deleted, log.len() as int);
}

} // verus!
