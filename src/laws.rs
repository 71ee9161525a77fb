use vstd::prelude::*;
use crate::models::{Account, Action, RedisAccount, RedisAction, lemma_key_distinct, lemma_key_injective};
use crate::store::{lookup, expiry, zview, drop_member};
use crate::credentials::{
    AppError, account_error, code_shape_ok, email_error, hash_post, password_error, password_matches, verify_password_post,
};
use crate::cookies::{cookie_jar, find_cookie, flow_cookie_names, jar_view};
use crate::sessions::{SESSION_TTL_MS, marked_until, revoked_key, session_key, session_live, sessions_key};
use crate::orchestrator::{
    ATTEMPT_LOCK_TTL_MS, PENDING_TTL_MS, PENDING_TTL_SECS, SESSION_TTL_SECS, Backend, Reply, Status, authenticate_post,
    forgot_post, freeze_post, stored_pending,
    freeze_key, is_flow, located, lock_key, logout_post, pending_key, pending_record, started, verify_pending_post,
    verify_post,
};

verus! {

/// A fresh backend: nothing in the volatile store, no identity.
pub open spec fn fresh(b: &Backend) -> bool {
    &&& forall|k: Seq<char>| lookup(b.store.entries(), k) is None
    &&& forall|k: Seq<char>| (#[trigger] b.store.spec_set(k)).len() == 0
    &&& forall|e: Seq<char>| #[trigger] b.users.spec_user(e) is None
}

proof fn lemma_prefixes()
    ensures
        RedisAction::Auth.spec_prefix()[0] == 'a',
        RedisAction::Forgot.spec_prefix()[0] == 'f',
        RedisAction::Update.spec_prefix()[0] == 'u',
        RedisAction::LockedTemporary.spec_prefix()[0] == 't',
        RedisAction::LockedTime.spec_prefix()[0] == 'l',
        RedisAction::Session.spec_prefix()[0] == 's',
        RedisAction::Auth.spec_prefix().len() > 0,
        RedisAction::Forgot.spec_prefix().len() > 0,
        RedisAction::Update.spec_prefix().len() > 0,
        RedisAction::LockedTemporary.spec_prefix().len() > 0,
        RedisAction::LockedTime.spec_prefix().len() > 0,
        RedisAction::Session.spec_prefix().len() > 0,
{
    reveal_strlit("auth_id");
    reveal_strlit("forgot_id");
    reveal_strlit("update");
    reveal_strlit("temporary_lock");
    reveal_strlit("locked_timestamp");
    reveal_strlit("session_id");
}

/// On a fresh backend, a valid sign-up followed by a verification with its
/// code, before the pending action expires, yields a session cookie, a live
/// session and a durable identity whose hash verifies the password.
pub proof fn law_signup_then_verify(
    s0: Backend,
    s1: Backend,
    s2: Backend,
    payload: Account,
    now1: i64,
    code: Seq<char>,
    id: Seq<char>,
    r1: Reply,
    cookies: Seq<(String, String)>,
    now2: i64,
    fresh_id: Seq<char>,
    r2: Reply,
)
    requires
        fresh(&s0),
        s0.max_sessions > 0,
        payload.action == Action::Signup,
        account_error(payload.email@, payload.password@) is None,
        code_shape_ok(code),
        authenticate_post(&s0, &s1, &payload, now1, code, id, &r1),
        r1.status == Status::Success,
        located(cookies) == Some((RedisAction::Auth, id)),
        now1 <= now2 < expiry(now1, PENDING_TTL_MS),
        verify_post(&s1, &s2, cookies, code, now2, fresh_id, &r2),
    ensures
        r2.status == Status::Success,
        jar_view(r2.cookies@) == cookie_jar(RedisAction::Session.spec_prefix(), fresh_id, SESSION_TTL_SECS),
        marked_until(&s2.store, session_key(fresh_id), expiry(now2, SESSION_TTL_MS)),
        s2.users.spec_user(payload.email@) matches Some(u) && !u.locked
            && (u.password_hash matches Some(h) && password_matches(payload.password@, h@)),
        zview(s2.store.spec_set(sessions_key(payload.email@))) == seq![(fresh_id, now2)],
{
    lemma_prefixes();
    let email = payload.email@;
    let key = pending_key(RedisAction::Auth, id);
    assert(s1.store.spec_set(sessions_key(email)) == s0.store.spec_set(sessions_key(email)));
    assert(s0.store.spec_set(sessions_key(email)).len() == 0);
    let v0 = zview(s1.store.spec_set(sessions_key(email)));
    assert(v0 =~= Seq::<(Seq<char>, i64)>::empty());
    assert(drop_member(v0, fresh_id).push((fresh_id, now2)) =~= seq![(fresh_id, now2)]);
    lemma_key_distinct(RedisAction::LockedTemporary.spec_prefix(), RedisAction::Auth.spec_prefix(), id, id, 0);
    lemma_key_distinct(RedisAction::LockedTime.spec_prefix(), RedisAction::Auth.spec_prefix(), email, id, 0);
    assert(lookup(s0.store.entries(), lock_key(id)) is None);
    assert(lookup(s0.store.entries(), freeze_key(email)) is None);
}

/// On a fresh backend, after a valid sign-up, a verification with any other
/// well-formed code is refused and writes no identity.
pub proof fn law_signup_wrong_code(
    s0: Backend,
    s1: Backend,
    s2: Backend,
    payload: Account,
    now1: i64,
    code: Seq<char>,
    id: Seq<char>,
    r1: Reply,
    cookies: Seq<(String, String)>,
    other: Seq<char>,
    now2: i64,
    fresh_id: Seq<char>,
    r2: Reply,
)
    requires
        fresh(&s0),
        payload.action == Action::Signup,
        authenticate_post(&s0, &s1, &payload, now1, code, id, &r1),
        located(cookies) == Some((RedisAction::Auth, id)),
        code_shape_ok(other),
        other != code,
        verify_post(&s1, &s2, cookies, other, now2, fresh_id, &r2),
    ensures
        r2.status == Status::Unauthorized,
        s2.users.spec_user(payload.email@) is None,
{
    lemma_prefixes();
    let email = payload.email@;
    lemma_key_distinct(RedisAction::LockedTemporary.spec_prefix(), RedisAction::Auth.spec_prefix(), id, id, 0);
    lemma_key_distinct(RedisAction::LockedTime.spec_prefix(), RedisAction::Auth.spec_prefix(), email, id, 0);
    assert(s0.users.spec_user(email) is None);
}

/// Two verifications of one identifier that both read the same pending
/// action within the attempt lock's second never both succeed: once the
/// first succeeds, the second is refused and changes nothing, so it adds no
/// session.
pub proof fn law_attempt_lock_race(
    s0: Backend,
    s1: Backend,
    s2: Backend,
    flow: RedisAction,
    id: Seq<char>,
    a: RedisAccount,
    token: Seq<char>,
    now1: i64,
    now2: i64,
    fresh1: Seq<char>,
    fresh2: Seq<char>,
    r1: Reply,
    r2: Reply,
)
    requires
        is_flow(flow),
        now1 <= now2 < expiry(now1, ATTEMPT_LOCK_TTL_MS),
        verify_pending_post(&s0, &s1, flow, id, Some(a), token, now1, fresh1, &r1),
        verify_pending_post(&s1, &s2, flow, id, Some(a), token, now2, fresh2, &r2),
    ensures
        r1.status == Status::Success ==> r2.status == Status::Unauthorized && s2 == s1,
        !(r1.status == Status::Success && r2.status == Status::Success),
{
}

/// After `forgot` for an address, a login request for it is refused, even
/// with the right password.
pub proof fn law_forgot_blocks_login(
    s0: Backend,
    s1: Backend,
    s2: Backend,
    email: Seq<char>,
    now1: i64,
    code1: Seq<char>,
    id1: Seq<char>,
    r1: Reply,
    payload: Account,
    now2: i64,
    code2: Seq<char>,
    id2: Seq<char>,
    r2: Reply,
)
    requires
        email_error(email) is None,
        forgot_post(&s0, &s1, email, now1, code1, id1, &r1),
        payload.email@ == email,
        payload.action == Action::Login,
        authenticate_post(&s1, &s2, &payload, now2, code2, id2, &r2),
    ensures
        r2.status != Status::Success,
        account_error(email, payload.password@) is None ==> r2.status == Status::Unauthorized,
        s2 == s1,
{
}

/// A login pending action issued before a recovery of its address began
/// cannot be verified afterwards, whatever code comes with it.
pub proof fn law_forgot_freezes_pending_login(
    s0: Backend,
    s1: Backend,
    s2: Backend,
    email: Seq<char>,
    now1: i64,
    code1: Seq<char>,
    id1: Seq<char>,
    r1: Reply,
    id: Seq<char>,
    a: RedisAccount,
    token: Seq<char>,
    now2: i64,
    fresh_id: Seq<char>,
    r2: Reply,
)
    requires
        email_error(email) is None,
        forgot_post(&s0, &s1, email, now1, code1, id1, &r1),
        a.email@ == email,
        verify_pending_post(&s1, &s2, RedisAction::Auth, id, Some(a), token, now2, fresh_id, &r2),
    ensures
        r2.status == Status::Unauthorized,
        s2.users == s1.users,
{
}

/// `forgot` for an unlocked address locks it durably and revokes every
/// session that its sorted set held.
pub proof fn law_forgot_revokes(s0: Backend, s1: Backend, email: Seq<char>, now: i64, code: Seq<char>, id: Seq<char>, r: Reply)
    requires
        email_error(email) is None,
        !s0.users.spec_locked(email),
        forgot_post(&s0, &s1, email, now, code, id, &r),
    ensures
        s1.users.spec_locked(email),
        s1.store.spec_set(sessions_key(email)).len() == 0,
        forall|j: int| 0 <= j < s0.store.spec_set(sessions_key(email)).len() ==> !session_live(
            &s1.store,
            (#[trigger] s0.store.spec_set(sessions_key(email))[j]).member@,
            now,
        ),
{
    lemma_prefixes();
    let key = pending_key(RedisAction::Forgot, id);
    let mid = choose|mid: Backend| {
        &&& freeze_post(&s0, &mid, email, now)
        &&& pending_record(&s1.store, key) matches Some(a)
        &&& started(a, email, Action::Forgot, code, None)
        &&& a.password_hash is None
        &&& stored_pending(&mid, &s1, key, a, now)
    };
    assert forall|j: int| 0 <= j < s0.store.spec_set(sessions_key(email)).len() implies !session_live(
        &s1.store,
        (#[trigger] s0.store.spec_set(sessions_key(email))[j]).member@,
        now,
    ) by {
        let m = s0.store.spec_set(sessions_key(email))[j].member@;
        lemma_key_distinct(RedisAction::Session.spec_prefix(), RedisAction::Forgot.spec_prefix(), m, id, 0);
        assert(lookup(s1.store.entries(), session_key(m)) == lookup(mid.store.entries(), session_key(m)));
    }
    assert(s1.store.spec_set(sessions_key(email)) == mid.store.spec_set(sessions_key(email)));
}

/// On a fresh backend, a recovery runs to its end: `forgot` locks the
/// address; verifying its code sets the `update` cookie and no session;
/// verifying a new password then unlocks the address with that password and
/// issues a live session (unless hashing fails, which answers 500).
pub proof fn law_recovery(
    s0: Backend,
    s1: Backend,
    s2: Backend,
    s3: Backend,
    email: Seq<char>,
    now1: i64,
    code: Seq<char>,
    id: Seq<char>,
    r1: Reply,
    c2: Seq<(String, String)>,
    now2: i64,
    update_id: Seq<char>,
    r2: Reply,
    c3: Seq<(String, String)>,
    new_password: Seq<char>,
    now3: i64,
    session_id: Seq<char>,
    r3: Reply,
)
    requires
        fresh(&s0),
        s0.max_sessions > 0,
        email_error(email) is None,
        code_shape_ok(code),
        password_error(new_password) is None,
        update_id != id,
        forgot_post(&s0, &s1, email, now1, code, id, &r1),
        located(c2) == Some((RedisAction::Forgot, id)),
        now1 <= now2 < expiry(now1, PENDING_TTL_MS),
        verify_post(&s1, &s2, c2, code, now2, update_id, &r2),
        located(c3) == Some((RedisAction::Update, update_id)),
        now2 <= now3 < expiry(now2, PENDING_TTL_MS),
        verify_post(&s2, &s3, c3, new_password, now3, session_id, &r3),
    ensures
        s1.users.spec_locked(email),
        r2.status == Status::Success,
        jar_view(r2.cookies@) == cookie_jar(RedisAction::Update.spec_prefix(), update_id, PENDING_TTL_SECS),
        s2.users.spec_locked(email),
        r3.status == Status::Success || r3.status == Status::ServerError,
        r3.status == Status::Success ==> {
            &&& s3.users.spec_user(email) matches Some(u) && !u.locked
                && (u.password_hash matches Some(h) && password_matches(new_password, h@))
            &&& jar_view(r3.cookies@) == cookie_jar(RedisAction::Session.spec_prefix(), session_id, SESSION_TTL_SECS)
            &&& marked_until(&s3.store, session_key(session_id), expiry(now3, SESSION_TTL_MS))
        },
{
    lemma_prefixes();
    let fkey = pending_key(RedisAction::Forgot, id);
    let mid = choose|mid: Backend| {
        &&& freeze_post(&s0, &mid, email, now1)
        &&& pending_record(&s1.store, fkey) matches Some(a)
        &&& started(a, email, Action::Forgot, code, None)
        &&& a.password_hash is None
        &&& stored_pending(&mid, &s1, fkey, a, now1)
    };
    let a = pending_record(&s1.store, fkey)->0;
    let set = s0.store.spec_set(sessions_key(email));
    assert(!revoked_key(set, lock_key(id)));
    assert(!revoked_key(set, lock_key(update_id)));
    lemma_key_distinct(RedisAction::LockedTemporary.spec_prefix(), RedisAction::LockedTime.spec_prefix(), id, email, 0);
    lemma_key_distinct(RedisAction::LockedTemporary.spec_prefix(), RedisAction::Forgot.spec_prefix(), id, id, 0);
    lemma_key_distinct(RedisAction::LockedTemporary.spec_prefix(), RedisAction::LockedTime.spec_prefix(), update_id, email, 0);
    lemma_key_distinct(RedisAction::LockedTemporary.spec_prefix(), RedisAction::Forgot.spec_prefix(), update_id, id, 0);
    lemma_key_distinct(RedisAction::LockedTemporary.spec_prefix(), RedisAction::Update.spec_prefix(), update_id, update_id, 0);
    lemma_key_injective(RedisAction::LockedTemporary.spec_prefix(), update_id, id);
    assert(lookup(s1.store.entries(), lock_key(id)) == lookup(mid.store.entries(), lock_key(id)));
    assert(lookup(mid.store.entries(), lock_key(id)) == lookup(s0.store.entries(), lock_key(id)));
    assert(lookup(s1.store.entries(), lock_key(update_id)) == lookup(mid.store.entries(), lock_key(update_id)));
    assert(lookup(mid.store.entries(), lock_key(update_id)) == lookup(s0.store.entries(), lock_key(update_id)));
    assert(lookup(s2.store.entries(), lock_key(update_id)) == lookup(s1.store.entries(), lock_key(update_id)));
    assert(s1.store.spec_set(sessions_key(email)) == mid.store.spec_set(sessions_key(email)));
    assert(s2.store.spec_set(sessions_key(email)) == s1.store.spec_set(sessions_key(email)));
    assert(a.email@ == email);
}

/// `logout` always answers 200 and clears exactly the four flow cookies,
/// whatever cookies came with it; the session its cookie names is no longer
/// live at any instant.
pub proof fn law_logout_clears(s0: Backend, s1: Backend, cookies: Seq<(String, String)>, r: Reply, now: i64)
    requires
        logout_post(&s0, &s1, cookies, &r),
    ensures
        r.status == Status::Success,
        jar_view(r.cookies@) == flow_cookie_names().map_values(|n: Seq<char>| (n, Seq::<char>::empty(), 0i64)),
        find_cookie(cookies, RedisAction::Session.spec_prefix()) matches Some(sid) ==> !session_live(&s1.store, sid, now),
{
    let key = RedisAction::Session.spec_prefix();
    assert(flow_cookie_names()[0] == key);
    assert(flow_cookie_names().contains(key));
    assert(cookie_jar(key, Seq::empty(), 0) =~= flow_cookie_names().map_values(
        |n: Seq<char>| (n, Seq::<char>::empty(), 0i64),
    ));
}

/// A hash that `hash_password` returns makes `verify_password` answer true
/// for the same password.
pub proof fn law_hash_then_verify(password: Seq<char>, hashed: Result<String, AppError>, verified: Result<bool, AppError>)
    requires
        hash_post(password, hashed),
        hashed is Ok,
        verify_password_post(password, hashed->Ok_0@, verified),
    ensures
        verified == Ok::<bool, AppError>(true),
{
}

} // verus!
