use sumkin::memory::MemoryBackend;
use sumkin::traits::NotImplemented;

#[test]
fn it_works() {
    assert_eq!(2 + 2, 4);
}

#[test]
fn super_basic() {
    let backend = MemoryBackend::new();

    let _og_size = backend.size();

    let revision = backend.current_revision();
    assert_eq!(0, revision);

    let count = backend.count("/");
    assert_eq!(0, count);

    let list = backend.list_current("/", -1, false);
    assert_eq!(0, list.len());
}

#[test]
fn solo_key_crud() {
    let mut backend = MemoryBackend::new();

    let key = "/root/health";
    let value = b"OK";
    let null = backend.get(key, None).unwrap();
    assert!(null.is_none());

    let expected_revision = backend.put(key, value);
    assert_eq!(1, expected_revision);

    let count = backend.count(key);
    assert_eq!(1, count);

    let kv = backend.get(key, None).unwrap().unwrap();
    assert_eq!(kv.value().as_ref().unwrap(), value);
    assert_eq!(1, *kv.create_revision());
    assert_eq!(1, *kv.mod_revision());

    let new_value = b"NOT OKAY";

    let expected_revision = backend.put(key, new_value);
    assert_eq!(2, expected_revision);

    let count = backend.count(key);
    assert_eq!(1, count);

    let kv = backend.get(key, None).unwrap().unwrap();
    assert_eq!(kv.value().as_ref().unwrap(), new_value);
    assert_eq!(1, *kv.create_revision());
    assert_eq!(2, *kv.mod_revision());

    let revision = backend.delete(key);
    assert_eq!(3, revision);

    let kv = backend.get(key, None).unwrap();
    assert!(kv.is_none());

    let revision = backend.delete(key);
    assert_eq!(3, revision);
    let count = backend.count(key);
    assert_eq!(0, count);
}

#[test]
fn list_two() {
    let mut backend = MemoryBackend::new();

    let key_1 = "/root/health";
    let key_2 = "/root/status";
    let value = b"OK";

    let expected_revision = backend.put(key_1, value);
    assert_eq!(1, expected_revision);

    let expected_revision = backend.put(key_2, value);
    assert_eq!(2, expected_revision);

    let count = backend.count("/root/");
    assert_eq!(2, count);

    let kvs = backend.list_current("/root/", -1, false);
    assert_eq!(2, kvs.len());

    let kvs = backend.list_current("/root/", 1, false);
    assert_eq!(1, kvs.len());

    let expected_revision = backend.put(key_1, value);
    assert_eq!(3, expected_revision);

    let expected_revision = backend.put(key_2, value);
    assert_eq!(4, expected_revision);

    let count = backend.count("/root/");
    assert_eq!(2, count);

    let revision = backend.delete("/root");
    assert_eq!(4, revision);

    let revision = backend.delete(key_1);
    assert_eq!(5, revision);
    let revision = backend.delete(key_1);
    assert_eq!(5, revision);
    let count = backend.count("/root/");
    assert_eq!(1, count);
    let kvs = backend.list_current("/root/", -1, false);
    assert_eq!(1, kvs.len());

    let revision = backend.delete(key_2);
    assert_eq!(6, revision);
    let revision = backend.delete(key_2);
    assert_eq!(6, revision);
    let count = backend.count("/root/");
    assert_eq!(0, count);
    let kvs = backend.list_current("/root/", -1, false);
    assert_eq!(0, kvs.len());
}

#[test]
fn revisions_increase_across_keys() {
    let mut backend = MemoryBackend::new();
    let first = backend.put("/a", b"1");
    assert_eq!(1, first);
    let second = backend.put("/b", b"2");
    assert!(second > first);
    let third = backend.put("/a", b"3");
    assert!(third > second);
    let fourth = backend.delete("/b");
    assert!(fourth > third);
    assert_eq!(4, backend.current_revision());
}

#[test]
fn put_then_get_round_trip() {
    let mut backend = MemoryBackend::new();
    backend.put("/x", b"one");
    backend.put("/y", b"two");
    let kv = backend.get("/y", None).unwrap().unwrap();
    assert_eq!(kv.key(), "/y");
    assert_eq!(kv.value().as_deref(), Some(&b"two"[..]));
    assert_eq!(*kv.lease(), None);
}

#[test]
fn update_keeps_create_revision() {
    let mut backend = MemoryBackend::new();
    assert_eq!(1, backend.put("/k", b"OK"));
    let kv = backend.get("/k", None).unwrap().unwrap();
    assert_eq!((1, 1), (*kv.create_revision(), *kv.mod_revision()));
    assert_eq!(2, backend.put("/k", b"NO"));
    let kv = backend.get("/k", None).unwrap().unwrap();
    assert_eq!((1, 2), (*kv.create_revision(), *kv.mod_revision()));
    assert_eq!(kv.value().as_deref(), Some(&b"NO"[..]));
}

#[test]
fn recreate_after_delete_takes_new_create_revision() {
    let mut backend = MemoryBackend::new();
    backend.put("/k", b"a");
    backend.delete("/k");
    assert_eq!(3, backend.put("/k", b"b"));
    let kv = backend.get("/k", None).unwrap().unwrap();
    assert_eq!((3, 3), (*kv.create_revision(), *kv.mod_revision()));
}

#[test]
fn delete_then_get_is_absent() {
    let mut backend = MemoryBackend::new();
    backend.put("/gone", b"v");
    assert_eq!(1, backend.count("/gone"));
    assert_eq!(2, backend.delete("/gone"));
    assert!(backend.get("/gone", None).unwrap().is_none());
    assert_eq!(0, backend.count("/gone"));
}

#[test]
fn delete_absent_key_keeps_revision() {
    let mut backend = MemoryBackend::new();
    assert_eq!(0, backend.delete("/nothing"));
    backend.put("/a", b"v");
    assert_eq!(1, backend.delete("/nothing"));
    assert_eq!(1, backend.current_revision());
}

#[test]
fn hierarchical_listing_in_revision_order() {
    let mut backend = MemoryBackend::new();
    backend.put("/root/health", b"OK");
    backend.put("/root/status", b"OK");
    assert_eq!(2, backend.count("/root/"));
    let kvs = backend.list_current("/root/", -1, false);
    assert_eq!(2, kvs.len());
    assert_eq!(kvs[0].key(), "/root/health");
    assert_eq!(kvs[1].key(), "/root/status");
    assert!(kvs[0].mod_revision() < kvs[1].mod_revision());
    let kvs = backend.list_current("/root/", 1, false);
    assert_eq!(1, kvs.len());
    assert_eq!(kvs[0].key(), "/root/health");
}

#[test]
fn listing_follows_latest_revision() {
    let mut backend = MemoryBackend::new();
    backend.put("/root/health", b"OK");
    backend.put("/root/status", b"OK");
    backend.put("/root/health", b"again");
    let kvs = backend.list_current("/root/", 0, false);
    assert_eq!(2, kvs.len());
    assert_eq!(kvs[0].key(), "/root/status");
    assert_eq!(2, *kvs[0].mod_revision());
    assert_eq!(kvs[1].key(), "/root/health");
    assert_eq!(3, *kvs[1].mod_revision());
}

#[test]
fn update_child_keeps_count() {
    let mut backend = MemoryBackend::new();
    backend.put("/root/health", b"OK");
    backend.put("/root/status", b"OK");
    let before = backend.current_revision();
    backend.put("/root/health", b"OK");
    assert_eq!(2, backend.count("/root/"));
    assert!(backend.current_revision() > before);
}

#[test]
fn prefix_without_separator_deletes_nothing() {
    let mut backend = MemoryBackend::new();
    backend.put("/root/health", b"OK");
    backend.put("/root/status", b"OK");
    assert_eq!(2, backend.delete("/root"));
    assert_eq!(2, backend.current_revision());
    assert_eq!(2, backend.count("/root/"));
    assert!(backend.get("/root/health", None).unwrap().is_some());
    assert!(backend.get("/root/status", None).unwrap().is_some());
}

#[test]
fn exact_key_does_not_match_children() {
    let mut backend = MemoryBackend::new();
    backend.put("/root/health", b"OK");
    assert_eq!(0, backend.count("/root"));
    assert_eq!(0, backend.count("/root/health/"));
    assert_eq!(1, backend.count("/"));
    assert_eq!(1, backend.count("/root/health"));
}

#[test]
fn end_to_end_scenario() {
    let mut backend = MemoryBackend::new();
    assert_eq!(1, backend.put("/root/health", b"OK"));
    assert_eq!(2, backend.put("/root/status", b"OK"));
    assert_eq!(2, backend.count("/root/"));
    assert_eq!(3, backend.put("/root/health", b"OK"));
    assert_eq!(4, backend.put("/root/status", b"OK"));
    assert_eq!(2, backend.count("/root/"));
    assert_eq!(4, backend.delete("/root"));
    assert_eq!(5, backend.delete("/root/health"));
    assert_eq!(1, backend.count("/root/"));
    assert_eq!(6, backend.delete("/root/status"));
    assert_eq!(0, backend.count("/root/"));
}

#[test]
fn include_deleted_lists_tombstones() {
    let mut backend = MemoryBackend::new();
    backend.put("/d/a", b"x");
    backend.put("/d/b", b"y");
    backend.delete("/d/a");
    let live = backend.list_current("/d/", -1, false);
    assert_eq!(1, live.len());
    assert_eq!(live[0].key(), "/d/b");
    let all = backend.list_current("/d/", -1, true);
    assert_eq!(2, all.len());
    assert_eq!(all[0].key(), "/d/b");
    assert_eq!(all[1].key(), "/d/a");
    assert_eq!(3, *all[1].mod_revision());
    assert_eq!(0, *all[1].create_revision());
    assert!(all[1].value().is_none());
}

#[test]
fn get_at_past_revision_is_refused() {
    let mut backend = MemoryBackend::new();
    backend.put("/k", b"v");
    assert_eq!(backend.get("/k", Some(1)).unwrap_err(), NotImplemented { revision: 1 });
}

#[test]
fn get_with_separator_reads_first_child() {
    let mut backend = MemoryBackend::new();
    backend.put("/p/one", b"1");
    backend.put("/p/two", b"2");
    let kv = backend.get("/p/", None).unwrap().unwrap();
    assert_eq!(kv.key(), "/p/one");
}

#[test]
fn size_counts_names_and_payloads() {
    let mut backend = MemoryBackend::new();
    assert_eq!(0, backend.size());
    backend.put("/k", b"OK");
    assert_eq!(4, backend.size());
    backend.put("/k", b"NO");
    assert_eq!(10, backend.size());
    backend.delete("/k");
    assert_eq!(14, backend.size());
}
