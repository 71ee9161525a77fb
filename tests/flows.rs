use backend::models::{Account, Action, RedisAccount};
use backend::orchestrator::{Backend, Reply, Status};

const T0: i64 = 1_700_000_000_000;

fn account(email: &str, password: &str, action: Action) -> Account {
    Account { email: email.to_string(), password: password.to_string(), action }
}

fn cookie(name: &str, value: &str) -> Vec<(String, String)> {
    vec![(name.to_string(), value.to_string())]
}

fn set_value(r: &Reply, name: &str) -> Option<(String, i64)> {
    r.cookies.iter().find(|c| c.name == name).map(|c| (c.value.clone(), c.max_age))
}

fn signed_up(b: &mut Backend, email: &str, password: &str, session: &str) {
    let r = b.authenticate(&account(email, password, Action::Signup), T0, "111111", "signup-id");
    assert_eq!(r.status, Status::Success);
    let r = b.verify(&cookie("auth_id", "signup-id"), "111111", T0 + 1, session);
    assert_eq!(r.status, Status::Success);
}

#[test]
fn signup_verify_logout_scenario() {
    let mut b = Backend::new(2);
    let r = b.authenticate(&account("a@purdue.edu", "pw1", Action::Signup), T0, "123456", "pending-1");
    assert_eq!(r.status, Status::Success);
    assert_eq!(r.status.code(), 200);
    let mail = r.mail.as_ref().unwrap();
    assert_eq!(mail.to, "a@purdue.edu");
    assert_eq!(mail.code, "123456");
    assert_eq!(set_value(&r, "auth_id"), Some(("pending-1".to_string(), 600)));
    assert_eq!(set_value(&r, "session_id"), Some((String::new(), 0)));
    assert!(b.users.get_user("a@purdue.edu").is_none());

    let r = b.verify(&cookie("auth_id", "pending-1"), "123456", T0 + 1000, "session-1");
    assert_eq!(r.status, Status::Success);
    assert_eq!(set_value(&r, "session_id"), Some(("session-1".to_string(), 3600)));
    assert!(b.store.contains("session_id:session-1", T0 + 1000));
    let (hash, locked) = b.users.get_user("a@purdue.edu").unwrap();
    assert!(!locked);
    assert_eq!(backend::credentials::verify_password("pw1", &hash.unwrap()), Ok(true));

    let r = b.logout(&cookie("session_id", "session-1"));
    assert_eq!(r.status, Status::Success);
    assert_eq!(set_value(&r, "session_id"), Some((String::new(), 0)));
    assert!(!b.store.contains("session_id:session-1", T0 + 1000));
}

#[test]
fn wrong_code_creates_no_identity() {
    let mut b = Backend::new(2);
    b.authenticate(&account("a@purdue.edu", "pw1", Action::Signup), T0, "123456", "p");
    let r = b.verify(&cookie("auth_id", "p"), "654321", T0 + 10, "s");
    assert_eq!(r.status, Status::Unauthorized);
    assert_eq!(r.status.code(), 401);
    assert!(r.cookies.is_empty());
    assert!(b.users.get_user("a@purdue.edu").is_none());
    let r = b.verify(&cookie("auth_id", "p"), "123456", T0 + 2000, "s");
    assert_eq!(r.status, Status::Unauthorized);
}

#[test]
fn concurrent_verifications_succeed_once() {
    let mut b = Backend::new(2);
    b.authenticate(&account("a@purdue.edu", "pw1", Action::Signup), T0, "123456", "p");
    let read = b.verify_token(&cookie("auth_id", "p"), T0 + 5).unwrap();
    let stale: Option<RedisAccount> = read.0.as_ref().map(|a| a.duplicate());
    let first = b.verify_pending(read.1, &read.2, read.0, "123456", T0 + 5, "s1");
    let second = b.verify_pending(read.1, &read.2, stale, "123456", T0 + 6, "s2");
    assert_eq!(first.status, Status::Success);
    assert_eq!(second.status, Status::Unauthorized);
}

#[test]
fn a_second_verification_is_refused() {
    let mut b = Backend::new(2);
    b.authenticate(&account("a@purdue.edu", "pw1", Action::Signup), T0, "123456", "p");
    let first = b.verify(&cookie("auth_id", "p"), "123456", T0 + 5, "s1");
    let second = b.verify(&cookie("auth_id", "p"), "123456", T0 + 5000, "s2");
    assert_eq!(first.status, Status::Success);
    assert_eq!(second.status, Status::Unauthorized);
}

#[test]
fn forgot_blocks_a_later_login() {
    let mut b = Backend::new(2);
    signed_up(&mut b, "a@purdue.edu", "pw1", "s0");
    let r = b.forgot("a@purdue.edu", T0 + 10, "222222", "f");
    assert_eq!(r.status, Status::Success);
    let r = b.authenticate(&account("a@purdue.edu", "pw1", Action::Login), T0 + 11, "333333", "l");
    assert_eq!(r.status, Status::Unauthorized);
}

#[test]
fn forgot_freezes_a_login_issued_just_before() {
    let mut b = Backend::new(2);
    signed_up(&mut b, "a@purdue.edu", "pw1", "s0");
    let r = b.authenticate(&account("a@purdue.edu", "pw1", Action::Login), T0 + 100, "444444", "l");
    assert_eq!(r.status, Status::Success);
    b.forgot("a@purdue.edu", T0 + 200, "222222", "f");
    let r = b.verify(&cookie("auth_id", "l"), "444444", T0 + 300, "s1");
    assert_eq!(r.status, Status::Unauthorized);
    let r = b.verify(&cookie("auth_id", "l"), "444444", T0 + 5000, "s1");
    assert_eq!(r.status, Status::Unauthorized);
}

#[test]
fn recovery_scenario() {
    let mut b = Backend::new(2);
    signed_up(&mut b, "a@purdue.edu", "pw1", "old-session");
    assert!(b.store.contains("session_id:old-session", T0 + 2));

    let r = b.forgot("a@purdue.edu", T0 + 10, "777777", "f1");
    assert_eq!(r.status, Status::Success);
    assert_eq!(set_value(&r, "forgot_id"), Some(("f1".to_string(), 600)));
    assert_eq!(r.mail.as_ref().unwrap().code, "777777");
    assert!(b.users.check_lock("a@purdue.edu"));
    assert!(!b.store.contains("session_id:old-session", T0 + 10));
    assert_eq!(b.store.zcard("sessions:a@purdue.edu"), 0);

    let r = b.verify(&cookie("forgot_id", "f1"), "777777", T0 + 20, "u1");
    assert_eq!(r.status, Status::Success);
    assert_eq!(set_value(&r, "update"), Some(("u1".to_string(), 600)));
    assert_eq!(set_value(&r, "session_id"), Some((String::new(), 0)));
    assert!(r.mail.is_none());
    assert!(b.users.check_lock("a@purdue.edu"));

    let r = b.verify(&cookie("update", "u1"), "pw2", T0 + 30, "new-session");
    assert_eq!(r.status, Status::Success);
    assert_eq!(set_value(&r, "session_id"), Some(("new-session".to_string(), 3600)));
    assert!(!b.users.check_lock("a@purdue.edu"));
    assert!(b.store.contains("session_id:new-session", T0 + 30));

    let r = b.authenticate(&account("a@purdue.edu", "pw2", Action::Login), T0 + 40, "888888", "l2");
    assert_eq!(r.status, Status::Success);
    let r = b.authenticate(&account("a@purdue.edu", "pw1", Action::Login), T0 + 41, "888888", "l3");
    assert_eq!(r.status, Status::Unauthorized);
}

#[test]
fn forgot_on_a_locked_identity_answers_alike() {
    let mut b = Backend::new(2);
    let first = b.forgot("a@purdue.edu", T0, "111111", "f1");
    let second = b.forgot("a@purdue.edu", T0 + 1, "222222", "f2");
    assert_eq!(first.status, Status::Success);
    assert_eq!(second.status, Status::Success);
    assert_eq!(set_value(&second, "forgot_id"), Some(("f2".to_string(), 600)));
    let r = b.forgot("a@gmail.com", T0, "111111", "f3");
    assert_eq!(r.status, Status::Unauthorized);
}

#[test]
fn logout_always_succeeds() {
    let mut b = Backend::new(2);
    for cookies in [Vec::new(), cookie("session_id", "nope"), cookie("auth_id", "x")] {
        let r = b.logout(&cookies);
        assert_eq!(r.status, Status::Success);
        assert_eq!(r.cookies.len(), 4);
        assert!(r.cookies.iter().all(|c| c.value.is_empty() && c.max_age == 0));
        let names: Vec<&str> = r.cookies.iter().map(|c| c.name.as_str()).collect();
        assert_eq!(names, vec!["session_id", "forgot_id", "update", "auth_id"]);
    }
}

#[test]
fn malformed_requests_get_400() {
    let mut b = Backend::new(2);
    let r = b.authenticate(&account("a@gmail.com", "pw", Action::Signup), T0, "123456", "p");
    assert_eq!(r.status, Status::BadRequest);
    assert_eq!(r.status.code(), 400);
    assert_eq!(r.message, "Email must be a Purdue address");
    let r = b.authenticate(&account("a@purdue.edu", "", Action::Login), T0, "123456", "p");
    assert_eq!(r.status, Status::BadRequest);
    assert_eq!(r.message, "Password cannot be empty");
}

#[test]
fn refused_requests_get_401() {
    let mut b = Backend::new(2);
    let r = b.authenticate(&account("a@purdue.edu", "pw", Action::Forgot), T0, "123456", "p");
    assert_eq!(r.status, Status::Unauthorized);
    assert_eq!(r.message, "Invalid Credentials");
    let r = b.authenticate(&account("a@purdue.edu", "pw", Action::Login), T0, "123456", "p");
    assert_eq!(r.status, Status::Unauthorized);
    signed_up(&mut b, "a@purdue.edu", "pw", "s");
    let r = b.authenticate(&account("a@purdue.edu", "pw", Action::Signup), T0, "123456", "p");
    assert_eq!(r.status, Status::Unauthorized);
    let r = b.authenticate(&account("a@purdue.edu", "bad", Action::Login), T0, "123456", "p");
    assert_eq!(r.status, Status::Unauthorized);
}

#[test]
fn verification_needs_a_flow_cookie_and_a_shape() {
    let mut b = Backend::new(2);
    let r = b.verify(&Vec::new(), "123456", T0, "s");
    assert_eq!(r.status, Status::Unauthorized);
    b.authenticate(&account("a@purdue.edu", "pw1", Action::Signup), T0, "123456", "p");
    let r = b.verify(&cookie("auth_id", "p"), "12345", T0 + 1, "s");
    assert_eq!(r.status, Status::Unauthorized);
    let r = b.verify(&cookie("auth_id", "p"), "123456", T0 + 600_000, "s");
    assert_eq!(r.status, Status::Unauthorized);
}

#[test]
fn the_forgot_cookie_takes_precedence() {
    let mut b = Backend::new(2);
    b.authenticate(&account("a@purdue.edu", "pw1", Action::Signup), T0, "123456", "p");
    let cookies = vec![("auth_id".to_string(), "p".to_string()), ("forgot_id".to_string(), "none".to_string())];
    let r = b.verify(&cookies, "123456", T0 + 1, "s");
    assert_eq!(r.status, Status::Unauthorized);
}

#[test]
fn sessions_per_identity_are_capped() {
    let mut b = Backend::new(2);
    signed_up(&mut b, "a@purdue.edu", "pw1", "s0");
    for (i, id) in ["s1", "s2"].iter().enumerate() {
        let pending = format!("l{}", i);
        let now = T0 + 100 * (i as i64 + 1);
        b.authenticate(&account("a@purdue.edu", "pw1", Action::Login), now, "555555", &pending);
        let r = b.verify(&cookie("auth_id", &pending), "555555", now + 1, id);
        assert_eq!(r.status, Status::Success);
    }
    assert_eq!(b.store.zcard("sessions:a@purdue.edu"), 2);
    assert!(!b.store.contains("session_id:s0", T0 + 500));
    assert!(b.store.contains("session_id:s1", T0 + 500));
    assert!(b.store.contains("session_id:s2", T0 + 500));
}

#[test]
fn handlers_draw_their_own_values() {
    let mut b = Backend::new(2);
    let r = b.authenticate_handler(&account("a@purdue.edu", "pw1", Action::Signup));
    assert_eq!(r.status, Status::Success);
    let (id, _) = set_value(&r, "auth_id").unwrap();
    assert_eq!(id.len(), 36);
    let code = r.mail.as_ref().unwrap().code.clone();
    assert_eq!(code.len(), 6);
    let r = b.verify_handler(&cookie("auth_id", &id), &code);
    assert_eq!(r.status, Status::Success);
    let (sid, _) = set_value(&r, "session_id").unwrap();
    let r = b.delete_handler(&cookie("session_id", &sid));
    assert_eq!(r.status, Status::Success);
    let r = b.forgot_handler("a@purdue.edu");
    assert_eq!(r.status, Status::Success);
}

#[test]
fn the_freeze_timestamp_outlives_the_durable_lock() {
    let mut b = Backend::new(3);
    signed_up(&mut b, "a@purdue.edu", "pw1", "s0");
    let r = b.authenticate(&account("a@purdue.edu", "pw1", Action::Login), T0 + 100, "444444", "early");
    assert_eq!(r.status, Status::Success);
    b.forgot("a@purdue.edu", T0 + 200, "222222", "f");
    b.verify(&cookie("forgot_id", "f"), "222222", T0 + 210, "u");
    let r = b.verify(&cookie("update", "u"), "pw1", T0 + 220, "s1");
    assert_eq!(r.status, Status::Success);
    assert!(!b.users.check_lock("a@purdue.edu"));
    let r = b.verify(&cookie("auth_id", "early"), "444444", T0 + 230, "s2");
    assert_eq!(r.status, Status::Unauthorized);
    assert!(!b.store.contains("temporary_lock:early", T0 + 230));
    assert!(!b.store.contains("auth_id:early", T0 + 230));
    let r = b.authenticate(&account("a@purdue.edu", "pw1", Action::Login), T0 + 800, "555555", "late");
    assert_eq!(r.status, Status::Success);
    let r = b.verify(&cookie("auth_id", "late"), "555555", T0 + 810, "s3");
    assert_eq!(r.status, Status::Success);
}

#[test]
fn an_unreadable_stored_hash_is_a_server_error() {
    let mut b = Backend::new(2);
    b.users.insert_user("a@purdue.edu", Some("not a hash".to_string()));
    let r = b.authenticate(&account("a@purdue.edu", "pw1", Action::Login), T0, "123456", "p");
    assert_eq!(r.status, Status::ServerError);
    assert_eq!(r.status.code(), 500);
    assert_eq!(r.message, "Internal server error");
    assert!(r.cookies.is_empty());
}
