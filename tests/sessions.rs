use backend::sessions::{delete_all_sessions, insert_session};
use backend::store::KvStore;

#[test]
fn the_cap_evicts_the_oldest_session() {
    let mut s = KvStore::new();
    assert_eq!(insert_session(&mut s, "s1", "a@purdue.edu", 1000, 2), None);
    assert_eq!(insert_session(&mut s, "s2", "a@purdue.edu", 2000, 2), None);
    assert_eq!(insert_session(&mut s, "s3", "a@purdue.edu", 3000, 2), Some("s1".to_string()));
    assert_eq!(s.zcard("sessions:a@purdue.edu"), 2);
    assert!(!s.contains("session_id:s1", 3000));
    assert!(s.contains("session_id:s2", 3000));
    assert!(s.contains("session_id:s3", 3000));
    assert_eq!(insert_session(&mut s, "s4", "a@purdue.edu", 4000, 2), Some("s2".to_string()));
    assert_eq!(s.zcard("sessions:a@purdue.edu"), 2);
}

#[test]
fn identities_have_separate_caps() {
    let mut s = KvStore::new();
    insert_session(&mut s, "s1", "a@purdue.edu", 1, 1);
    assert_eq!(insert_session(&mut s, "t1", "b@purdue.edu", 2, 1), None);
    assert!(s.contains("session_id:s1", 2));
    assert!(s.contains("session_id:t1", 2));
}

#[test]
fn sessions_expire_after_an_hour() {
    let mut s = KvStore::new();
    insert_session(&mut s, "s1", "a@purdue.edu", 0, 2);
    assert!(s.contains("session_id:s1", 3_599_999));
    assert!(!s.contains("session_id:s1", 3_600_000));
}

#[test]
fn revoking_deletes_every_session() {
    let mut s = KvStore::new();
    insert_session(&mut s, "s1", "a@purdue.edu", 1, 3);
    insert_session(&mut s, "s2", "a@purdue.edu", 2, 3);
    insert_session(&mut s, "t1", "b@purdue.edu", 3, 3);
    delete_all_sessions(&mut s, "a@purdue.edu");
    assert!(!s.contains("session_id:s1", 3));
    assert!(!s.contains("session_id:s2", 3));
    assert_eq!(s.zcard("sessions:a@purdue.edu"), 0);
    assert!(s.contains("session_id:t1", 3));
}

#[test]
fn liveness_goes_by_the_key_alone() {
    let mut s = KvStore::new();
    insert_session(&mut s, "s1", "a@purdue.edu", 0, 2);
    assert!(backend::sessions::is_live(&s, "s1", 10));
    assert!(!backend::sessions::is_live(&s, "s2", 10));
    s.del("session_id:s1");
    assert!(!backend::sessions::is_live(&s, "s1", 10));
    assert_eq!(s.zcard("sessions:a@purdue.edu"), 1);
}

#[test]
fn the_set_keeps_insertion_order_minus_the_oldest() {
    let mut s = KvStore::new();
    insert_session(&mut s, "s1", "a@purdue.edu", 10, 2);
    insert_session(&mut s, "s2", "a@purdue.edu", 20, 2);
    insert_session(&mut s, "s3", "a@purdue.edu", 30, 2);
    assert_eq!(s.zmembers("sessions:a@purdue.edu"), vec!["s2".to_string(), "s3".to_string()]);
    assert_eq!(insert_session(&mut s, "s2", "a@purdue.edu", 40, 2), None);
    assert_eq!(s.zmembers("sessions:a@purdue.edu"), vec!["s3".to_string(), "s2".to_string()]);
    assert_eq!(insert_session(&mut s, "s4", "a@purdue.edu", 5, 2), Some("s4".to_string()));
    assert!(!s.contains("session_id:s4", 5));
}
