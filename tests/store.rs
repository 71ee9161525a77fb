use backend::store::{insert_id, is_temporarily_locked, remove_id, try_get, KvStore, StoreValue};

fn millis(v: Option<StoreValue>) -> Option<i64> {
    match v {
        Some(StoreValue::Millis(t)) => Some(t),
        _ => None,
    }
}

#[test]
fn keys_expire_at_their_deadline() {
    let mut s = KvStore::new();
    s.set_ex("k", StoreValue::Millis(5), 1000, 100);
    assert_eq!(millis(s.get("k", 100)), Some(5));
    assert_eq!(millis(s.get("k", 1099)), Some(5));
    assert!(s.get("k", 1100).is_none());
    assert!(!s.contains("k", 1100));
    assert!(s.get("other", 100).is_none());
}

#[test]
fn set_replaces_and_del_removes() {
    let mut s = KvStore::new();
    s.set_ex("k", StoreValue::Millis(1), 1000, 0);
    s.set_ex("k", StoreValue::Millis(2), 1000, 0);
    s.set_ex("j", StoreValue::Millis(3), 1000, 0);
    assert_eq!(millis(s.get("k", 0)), Some(2));
    s.del("k");
    assert!(s.get("k", 0).is_none());
    assert_eq!(millis(s.get("j", 0)), Some(3));
}

#[test]
fn set_if_absent_takes_only_a_free_key() {
    let mut s = KvStore::new();
    assert!(s.set_nx_ex("lock", StoreValue::Marker, 1000, 0));
    assert!(!s.set_nx_ex("lock", StoreValue::Marker, 1000, 999));
    assert!(s.set_nx_ex("lock", StoreValue::Marker, 1000, 1000));
}

#[test]
fn expiry_saturates() {
    let mut s = KvStore::new();
    s.set_ex("k", StoreValue::Marker, 10, i64::MAX - 1);
    assert!(s.contains("k", i64::MAX - 1));
}

#[test]
fn sorted_sets_pop_the_lowest_score() {
    let mut s = KvStore::new();
    s.zadd("z", "b", 20);
    s.zadd("z", "a", 10);
    s.zadd("z", "c", 10);
    s.zadd("y", "x", 1);
    assert_eq!(s.zcard("z"), 3);
    assert_eq!(s.zpop_min("z"), Some("a".to_string()));
    assert_eq!(s.zpop_min("z"), Some("c".to_string()));
    assert_eq!(s.zmembers("z"), vec!["b".to_string()]);
    assert_eq!(s.zcard("y"), 1);
    s.zdel("z");
    assert_eq!(s.zcard("z"), 0);
    assert_eq!(s.zpop_min("z"), None);
    assert_eq!(s.zcard("y"), 1);
}

#[test]
fn re_adding_a_member_replaces_its_score() {
    let mut s = KvStore::new();
    s.zadd("z", "a", 5);
    s.zadd("z", "b", 7);
    s.zadd("z", "a", 9);
    assert_eq!(s.zcard("z"), 2);
    assert_eq!(s.zpop_min("z"), Some("b".to_string()));
}

#[test]
fn namespaced_helpers_use_prefix_and_id() {
    let mut s = KvStore::new();
    insert_id(&mut s, "locked_timestamp", "a@purdue.edu", StoreValue::Millis(9), 900_000, 0);
    assert_eq!(millis(s.get("locked_timestamp:a@purdue.edu", 1)), Some(9));
    assert_eq!(millis(try_get(&s, "locked_timestamp", "a@purdue.edu", 1)), Some(9));
    remove_id(&mut s, "locked_timestamp", "a@purdue.edu");
    assert!(try_get(&s, "locked_timestamp", "a@purdue.edu", 1).is_none());
    assert!(!is_temporarily_locked(&mut s, "temporary_lock", "x", 1000, 0));
    assert!(is_temporarily_locked(&mut s, "temporary_lock", "x", 1000, 999));
    assert!(!is_temporarily_locked(&mut s, "temporary_lock", "x", 1000, 1000));
}
