use vstd::prelude::*;
use crate::models::{Account, Action, RedisAccount, RedisAction, spec_key, lemma_key_distinct};
use crate::store::{KvStore, StoreValue, lookup, expiry, try_get, insert_id, remove_id, is_temporarily_locked};
use crate::users::UserStore;
use crate::codes::{generate_code, new_identifier, now_millis, six_digits};
use crate::credentials::{
    AppError, account_error, email_error, is_phc, password_error, code_shape_ok, password_matches,
    validate_account, validate_email, validate_password, validate_code, hash_password, verify_password,
};
use crate::cookies::{SetCookie, cookie_jar, find_cookie, generate_cookie, get_cookie, jar_view};
use crate::sessions::{
    SESSION_TTL_MS, insert_session, delete_all_sessions, marked_until, revoked_key, session_key, sessions_key,
    after_insert, live_if_member,
};
use crate::store::zview;

verus! {

/// How long a pending action lives, in milliseconds and in seconds.
pub const PENDING_TTL_MS: u32 = 600000;
pub const PENDING_TTL_SECS: i64 = 600;
/// How long a session cookie lives, in seconds.
pub const SESSION_TTL_SECS: i64 = 3600;
/// How long an attempt lock is held, in milliseconds.
pub const ATTEMPT_LOCK_TTL_MS: u32 = 1000;
/// How long a freeze timestamp is kept, in milliseconds.
pub const FREEZE_TTL_MS: u32 = 900000;
/// The grace window added to the instant of a freeze, in milliseconds.
pub const FREEZE_GRACE_MS: i64 = 500;

/// The outcome class of a request.
#[derive(PartialEq, Eq, Structural, Clone, Copy, Debug)]
pub enum Status {
    Success,
    BadRequest,
    Unauthorized,
    ServerError,
}

impl Status {
    pub open spec fn spec_code(self) -> u16 {
        match self {
            Status::Success => 200,
            Status::BadRequest => 400,
            Status::Unauthorized => 401,
            Status::ServerError => 500,
        }
    }

    /// The HTTP status code.
    pub fn code(&self) -> (r: u16)
        ensures
            r == self.spec_code(),
    {
        match self {
            Status::Success => 200,
            Status::BadRequest => 400,
            Status::Unauthorized => 401,
            Status::ServerError => 500,
        }
    }
}

/// A code to send by mail, out of band.
pub struct CodeMail {
    pub to: String,
    pub code: String,
}

/// What a request is answered with.
pub struct Reply {
    pub status: Status,
    pub message: &'static str,
    pub cookies: Vec<SetCookie>,
    pub mail: Option<CodeMail>,
}

/// The state that the flows share: the session cap, the volatile store and
/// the durable user table.
pub struct Backend {
    pub max_sessions: u8,
    pub store: KvStore,
    pub users: UserStore,
}

/// The key of the pending action `id` of `flow`.
pub open spec fn pending_key(flow: RedisAction, id: Seq<char>) -> Seq<char> {
    spec_key(flow.spec_prefix(), id)
}

/// The key of the attempt lock of identifier `id`.
pub open spec fn lock_key(id: Seq<char>) -> Seq<char> {
    spec_key(RedisAction::LockedTemporary.spec_prefix(), id)
}

/// The key of the freeze timestamp of `email`.
pub open spec fn freeze_key(email: Seq<char>) -> Seq<char> {
    spec_key(RedisAction::LockedTime.spec_prefix(), email)
}

/// The pending action stored under `key`, expired or not.
pub open spec fn pending_record(store: &KvStore, key: Seq<char>) -> Option<RedisAccount> {
    match lookup(store.entries(), key) {
        Some(e) => match e.value {
            StoreValue::Pending(a) => Some(a),
            _ => None,
        },
        None => None,
    }
}

/// The instant from which the entry under `key` is gone.
pub open spec fn expires_at(store: &KvStore, key: Seq<char>) -> Option<i64> {
    match lookup(store.entries(), key) {
        Some(e) => Some(e.expires_at),
        None => None,
    }
}

/// The pending action under `key` that is still there at `now`.
pub open spec fn pending_at(store: &KvStore, key: Seq<char>, now: i64) -> Option<RedisAccount> {
    match store.spec_get(key, now) {
        Some(StoreValue::Pending(a)) => Some(a),
        _ => None,
    }
}

/// `now` plus the grace window, held at the largest instant.
pub open spec fn frozen_until(now: i64) -> i64 {
    if now + FREEZE_GRACE_MS > i64::MAX { i64::MAX } else { (now + FREEZE_GRACE_MS) as i64 }
}

/// Whether a login issued at `issued` is frozen at `now`: the identity is
/// durably locked, or a freeze timestamp later than the issue is recorded.
pub open spec fn login_frozen(b: &Backend, email: Seq<char>, issued: Option<i64>, now: i64) -> bool {
    b.users.spec_locked(email) || match b.store.spec_get(freeze_key(email), now) {
        Some(StoreValue::Millis(t)) => match issued {
            Some(i) => i < t,
            None => true,
        },
        Some(_) => true,
        None => issued is None,
    }
}

/// Whether the user table accepts a request to start `action` for
/// `email` with `password`.
pub open spec fn identity_accepts(users: &UserStore, email: Seq<char>, password: Seq<char>, action: Action) -> bool {
    match users.spec_user(email) {
        None => action == Action::Signup,
        Some(u) => action == Action::Login && !u.locked && (u.password_hash matches Some(h) && password_matches(
            password,
            h@,
        )),
    }
}

/// Whether a server error may answer `action` for `email`: a sign-up, whose
/// hashing may fail, or a login whose stored hash does not parse.
pub open spec fn may_fail(users: &UserStore, email: Seq<char>, action: Action) -> bool {
    match users.spec_user(email) {
        None => action == Action::Signup,
        Some(u) => action == Action::Login && (u.password_hash matches Some(h) && !is_phc(h@)),
    }
}

/// Whether the user table refuses `action` for `email` whatever the
/// password: a login without a row, a sign-up over a row, a locked row.
pub open spec fn table_refuses(users: &UserStore, email: Seq<char>, action: Action) -> bool {
    match users.spec_user(email) {
        None => action == Action::Login,
        Some(u) => action == Action::Signup || u.locked,
    }
}

/// The one body of every answer with `status`: 401s are indistinguishable.
pub open spec fn status_message(status: Status) -> Seq<char> {
    if status == Status::ServerError {
        "Internal server error"@
    } else {
        "Invalid Credentials"@
    }
}

/// Whether `code` and `id` are what the draws give: six decimal digits and a
/// 36-character identifier.
pub open spec fn drawn(code: Seq<char>, id: Seq<char>) -> bool {
    &&& exists|n: int| 0 <= n < 1000000 && code == six_digits(n)
    &&& id.len() == 36
}

/// Whether `r` answers with `status`, its one body, no cookie and no mail.
pub open spec fn refused(r: &Reply, status: Status) -> bool {
    &&& r.status == status
    &&& r.message@ == status_message(status)
    &&& r.cookies@.len() == 0
    &&& r.mail is None
}

/// Whether `a` is the pending action that a flow starts for `email`.
pub open spec fn started(a: RedisAccount, email: Seq<char>, action: Action, code: Seq<char>, issued: Option<i64>) -> bool {
    &&& a.email@ == email
    &&& a.action == action
    &&& a.code@ == code
    &&& a.issued_timestamp == issued
}

/// Whether `new` is `old` with a pending action stored under `key` until
/// `now` plus the pending lifetime, and nothing else changed.
pub open spec fn stored_pending(old: &Backend, new: &Backend, key: Seq<char>, a: RedisAccount, now: i64) -> bool {
    &&& pending_record(&new.store, key) == Some(a)
    &&& expires_at(&new.store, key) == Some(expiry(now, PENDING_TTL_MS))
    &&& old.store.same_but_key(&new.store, key)
    &&& new.users == old.users
    &&& new.max_sessions == old.max_sessions
}

/// What `authenticate` does: a forgot request or a malformed one is
/// refused and changes nothing; a request that the user table refuses is
/// refused; an accepted one stores a pending action under the new
/// identifier, sets the `auth_id` cookie and mails the code.
pub open spec fn authenticate_post(
    old: &Backend,
    new: &Backend,
    payload: &Account,
    now: i64,
    code: Seq<char>,
    id: Seq<char>,
    r: &Reply,
) -> bool {
    let email = payload.email@;
    let password = payload.password@;
    let key = pending_key(RedisAction::Auth, id);
    if payload.action == Action::Forgot {
        refused(r, Status::Unauthorized) && *new == *old
    } else if account_error(email, password) is Some {
        &&& r.status == Status::BadRequest
        &&& r.message@ == account_error(email, password)->0
        &&& r.cookies@.len() == 0
        &&& r.mail is None
        &&& *new == *old
    } else if table_refuses(&old.users, email, payload.action) {
        refused(r, Status::Unauthorized) && *new == *old
    } else if !identity_accepts(&old.users, email, password, payload.action) {
        &&& refused(r, Status::Unauthorized) || (refused(r, Status::ServerError) && may_fail(
            &old.users,
            email,
            payload.action,
        ))
        &&& *new == *old
    } else {
        &&& payload.action == Action::Login ==> r.status == Status::Success
        &&& r.status == Status::Success || (refused(r, Status::ServerError) && payload.action == Action::Signup
            && *new == *old)
        &&& r.status == Status::Success ==> {
            &&& pending_record(&new.store, key) matches Some(a)
            &&& started(a, email, payload.action, code, Some(now))
            &&& payload.action == Action::Signup ==> (a.password_hash matches Some(h) && password_matches(
                password,
                h@,
            ))
            &&& payload.action == Action::Login ==> a.password_hash is None
            &&& stored_pending(old, new, key, a, now)
            &&& jar_view(r.cookies@) == cookie_jar(RedisAction::Auth.spec_prefix(), id, PENDING_TTL_SECS)
            &&& r.mail matches Some(m) && m.to@ == email && m.code@ == code
        }
    }
}

/// What freezing `email` at `now` does: nothing where it is locked
/// already; else it records the freeze timestamp, locks the identity and
/// revokes its sessions.
pub open spec fn freeze_post(old: &Backend, new: &Backend, email: Seq<char>, now: i64) -> bool {
    let set = old.store.spec_set(sessions_key(email));
    if old.users.spec_locked(email) {
        *new == *old
    } else {
        &&& new.max_sessions == old.max_sessions
        &&& new.users.spec_locked(email)
        &&& old.users.same_but(&new.users, email)
        &&& lookup(new.store.entries(), freeze_key(email)) matches Some(e)
        &&& e.value == StoreValue::Millis(frozen_until(now))
        &&& e.expires_at == expiry(now, FREEZE_TTL_MS)
        &&& new.store.spec_set(sessions_key(email)).len() == 0
        &&& forall|j: int| 0 <= j < set.len() ==> lookup(new.store.entries(), session_key((#[trigger] set[j]).member@)) is None
        &&& forall|k: Seq<char>| k != sessions_key(email) ==> #[trigger] new.store.spec_set(k) == old.store.spec_set(k)
        &&& forall|k: Seq<char>| k != freeze_key(email) && !revoked_key(set, k)
            ==> #[trigger] lookup(new.store.entries(), k) == lookup(old.store.entries(), k)
    }
}

/// What `forgot` does: a malformed address is refused; else the identity
/// is frozen and a pending recovery is stored under the new identifier,
/// whether or not it was locked already.
pub open spec fn forgot_post(old: &Backend, new: &Backend, email: Seq<char>, now: i64, code: Seq<char>, id: Seq<char>, r: &Reply) -> bool {
    let key = pending_key(RedisAction::Forgot, id);
    if email_error(email) is Some {
        refused(r, Status::Unauthorized) && *new == *old
    } else {
        &&& exists|mid: Backend| {
            &&& freeze_post(old, &mid, email, now)
            &&& pending_record(&new.store, key) matches Some(a)
            &&& started(a, email, Action::Forgot, code, None)
            &&& a.password_hash is None
            &&& stored_pending(&mid, new, key, a, now)
        }
        &&& r.status == Status::Success
        &&& new.users.spec_locked(email)
        &&& jar_view(r.cookies@) == cookie_jar(RedisAction::Forgot.spec_prefix(), id, PENDING_TTL_SECS)
        &&& r.mail matches Some(m) && m.to@ == email && m.code@ == code
    }
}

/// What `logout` does: it deletes the liveness key of the session cookie,
/// if one came, answers 200 and clears every flow cookie.
pub open spec fn logout_post(old: &Backend, new: &Backend, cookies: Seq<(String, String)>, r: &Reply) -> bool {
    &&& r.status == Status::Success
    &&& r.mail is None
    &&& jar_view(r.cookies@) == cookie_jar(RedisAction::Session.spec_prefix(), Seq::empty(), 0)
    &&& new.users == old.users
    &&& new.max_sessions == old.max_sessions
    &&& match find_cookie(cookies, RedisAction::Session.spec_prefix()) {
        Some(sid) => lookup(new.store.entries(), session_key(sid)) is None && old.store.same_but_key(
            &new.store,
            session_key(sid),
        ),
        None => *new == *old,
    }
}

/// The flow cookie that a verification goes by: `forgot_id`, else
/// `auth_id`, else `update`.
pub open spec fn located(cookies: Seq<(String, String)>) -> Option<(RedisAction, Seq<char>)> {
    match find_cookie(cookies, RedisAction::Forgot.spec_prefix()) {
        Some(v) => Some((RedisAction::Forgot, v)),
        None => match find_cookie(cookies, RedisAction::Auth.spec_prefix()) {
            Some(v) => Some((RedisAction::Auth, v)),
            None => match find_cookie(cookies, RedisAction::Update.spec_prefix()) {
                Some(v) => Some((RedisAction::Update, v)),
                None => None,
            },
        },
    }
}

pub open spec fn is_flow(flow: RedisAction) -> bool {
    flow == RedisAction::Auth || flow == RedisAction::Forgot || flow == RedisAction::Update
}

/// Whether `token` has the shape that `flow` asks for: a new password for
/// the update step, a one-time code otherwise.
pub open spec fn token_shape_ok(flow: RedisAction, token: Seq<char>) -> bool {
    if flow == RedisAction::Update {
        password_error(token) is None
    } else {
        code_shape_ok(token)
    }
}

/// What creating a session for the verified action `a` does.
pub open spec fn session_post(
    old: &Backend,
    new: &Backend,
    a: RedisAccount,
    flow: RedisAction,
    token: Seq<char>,
    now: i64,
    fresh_id: Seq<char>,
    r: &Reply,
) -> bool {
    let email = a.email@;
    let before = old.store.spec_set(sessions_key(email)).len();
    let after = new.store.spec_set(sessions_key(email)).len();
    &&& flow != RedisAction::Update ==> r.status == Status::Success
    &&& r.status == Status::Success || refused(r, Status::ServerError)
    &&& r.status == Status::Success ==> {
        &&& jar_view(r.cookies@) == cookie_jar(RedisAction::Session.spec_prefix(), fresh_id, SESSION_TTL_SECS)
        &&& r.mail is None
        &&& old.users.same_but(&new.users, email)
        &&& flow == RedisAction::Update ==> (new.users.spec_user(email) matches Some(u) && !u.locked
            && (u.password_hash matches Some(h) && password_matches(token, h@)))
        &&& flow != RedisAction::Update && a.action == Action::Signup ==> (new.users.spec_user(email) matches Some(u)
            && !u.locked && u.password_hash == a.password_hash)
        &&& flow != RedisAction::Update && a.action != Action::Signup ==> new.users == old.users
        &&& before <= old.max_sessions ==> after <= old.max_sessions
        &&& after <= before + 1
        &&& before + 1 <= old.max_sessions ==> marked_until(
            &new.store,
            session_key(fresh_id),
            expiry(now, SESSION_TTL_MS),
        )
        &&& after_insert(
            zview(old.store.spec_set(sessions_key(email))),
            fresh_id,
            now,
            old.max_sessions,
            zview(new.store.spec_set(sessions_key(email))),
        )
        &&& live_if_member(&new.store, zview(new.store.spec_set(sessions_key(email))), fresh_id, now)
        &&& forall|k: Seq<char>| k != sessions_key(email) ==> #[trigger] new.store.spec_set(k) == old.store.spec_set(k)
    }
}

/// What verifying `token` against the pending action `result`, read under
/// `id` in the namespace of `flow`, does. A malformed token, a missing
/// action or a held attempt lock is refused and changes nothing. Else the
/// attempt lock is taken for a second and the action is consumed; a frozen
/// login is refused and its lock released; a wrong code is refused; a
/// recovery moves to its update step;
/// an update unfreezes the identity with the new password; then a session
/// is created.
pub open spec fn verify_pending_post(
    old: &Backend,
    new: &Backend,
    flow: RedisAction,
    id: Seq<char>,
    result: Option<RedisAccount>,
    token: Seq<char>,
    now: i64,
    fresh_id: Seq<char>,
    r: &Reply,
) -> bool {
    if !token_shape_ok(flow, token) || result is None || old.store.spec_get(lock_key(id), now) is Some {
        refused(r, Status::Unauthorized) && *new == *old
    } else {
        let a = result->0;
        let frozen = flow == RedisAction::Auth && login_frozen(old, a.email@, a.issued_timestamp, now);
        &&& !frozen ==> marked_until(&new.store, lock_key(id), expiry(now, ATTEMPT_LOCK_TTL_MS))
        &&& frozen ==> lookup(new.store.entries(), lock_key(id)) is None
        &&& lookup(new.store.entries(), pending_key(flow, id)) is None
        &&& new.max_sessions == old.max_sessions
        &&& if frozen || (flow != RedisAction::Update && token != a.code@) {
            &&& refused(r, Status::Unauthorized)
            &&& new.users == old.users
            &&& new.store.members() == old.store.members()
            &&& forall|k: Seq<char>| k != lock_key(id) && k != pending_key(flow, id)
                ==> #[trigger] lookup(new.store.entries(), k) == lookup(old.store.entries(), k)
        } else if flow == RedisAction::Forgot {
            &&& r.status == Status::Success
            &&& r.mail is None
            &&& jar_view(r.cookies@) == cookie_jar(RedisAction::Update.spec_prefix(), fresh_id, PENDING_TTL_SECS)
            &&& pending_record(&new.store, pending_key(RedisAction::Update, fresh_id)) == Some(a)
            &&& expires_at(&new.store, pending_key(RedisAction::Update, fresh_id)) == Some(
                expiry(now, PENDING_TTL_MS),
            )
            &&& new.users == old.users
            &&& new.store.members() == old.store.members()
            &&& forall|k: Seq<char>|
                k != lock_key(id) && k != pending_key(flow, id) && k != pending_key(RedisAction::Update, fresh_id)
                    ==> #[trigger] lookup(new.store.entries(), k) == lookup(old.store.entries(), k)
        } else {
            session_post(old, new, a, flow, token, now, fresh_id, r)
        }
    }
}

/// What `verify` does: with no flow cookie it refuses; else it is
/// `verify_pending` on what the cookie's key holds at `now`.
pub open spec fn verify_post(
    old: &Backend,
    new: &Backend,
    cookies: Seq<(String, String)>,
    token: Seq<char>,
    now: i64,
    fresh_id: Seq<char>,
    r: &Reply,
) -> bool {
    match located(cookies) {
        None => refused(r, Status::Unauthorized) && *new == *old,
        Some((flow, id)) => verify_pending_post(
            old,
            new,
            flow,
            id,
            pending_at(&old.store, pending_key(flow, id), now),
            token,
            now,
            fresh_id,
            r,
        ),
    }
}

fn refuse(status: Status) -> (r: Reply)
    ensures
        refused(&r, status),
{
    let message = if status == Status::ServerError {
        "Internal server error"
    } else {
        "Invalid Credentials"
    };
    Reply { status, message, cookies: Vec::new(), mail: None }
}

impl Backend {
    /// A backend with empty stores and the given session cap.
    pub fn new(max_sessions: u8) -> (r: Backend)
        ensures
            r.max_sessions == max_sessions,
            forall|k: Seq<char>, now: i64| r.store.spec_get(k, now) is None,
            forall|k: Seq<char>| lookup(r.store.entries(), k) is None,
            forall|k: Seq<char>| (#[trigger] r.store.spec_set(k)).len() == 0,
            forall|e: Seq<char>| #[trigger] r.users.spec_user(e) is None,
    {
        let store = KvStore::new();
        proof {
            assert forall|k: Seq<char>| lookup(store.entries(), k) is None by {}
        }
        Backend { max_sessions, store, users: UserStore::new() }
    }

    /// Stores `account` as a pending action of `flow` under `id` for ten
    /// minutes and answers with the flow's cookie; the code goes out by mail
    /// except for the update step.
    fn create_temporary_session(&mut self, account: RedisAccount, flow: RedisAction, id: &str, now: i64) -> (r: Reply)
        ensures
            stored_pending(old(self), final(self), pending_key(flow, id@), account, now),
            r.status == Status::Success,
            jar_view(r.cookies@) == cookie_jar(flow.spec_prefix(), id@, PENDING_TTL_SECS),
            flow != RedisAction::Update ==> (r.mail matches Some(m) && m.to@ == account.email@
                && m.code@ == account.code@),
            flow == RedisAction::Update ==> r.mail is None,
    {
        let mail = if flow != RedisAction::Update {
            Some(CodeMail { to: account.email.clone(), code: account.code.clone() })
        } else {
            None
        };
        insert_id(&mut self.store, flow.as_str(), id, StoreValue::Pending(account), PENDING_TTL_MS, now);
        Reply { status: Status::Success, message: "", cookies: generate_cookie(flow.as_str(), id, PENDING_TTL_SECS), mail }
    }

    /// The pending action that a sign-up or login request starts, `None`
    /// where the user table refuses it.
    fn create_redis_account(&self, payload: &Account, now: i64, code: &str) -> (r: Result<Option<RedisAccount>, AppError>)
        ensures
            identity_accepts(&self.users, payload.email@, payload.password@, payload.action) && payload.action
                == Action::Login ==> r is Ok && r->Ok_0 is Some,
            identity_accepts(&self.users, payload.email@, payload.password@, payload.action) ==> r is Err || r->Ok_0 is Some,
            !identity_accepts(&self.users, payload.email@, payload.password@, payload.action) ==> (r is Err || r->Ok_0 is None),
            r is Err ==> may_fail(&self.users, payload.email@, payload.action),
            payload.action != Action::Forgot && table_refuses(&self.users, payload.email@, payload.action) ==> r == Ok::<
                Option<RedisAccount>,
                AppError,
            >(None),
            r matches Ok(Some(a)) ==> {
                &&& identity_accepts(&self.users, payload.email@, payload.password@, payload.action)
                &&& started(a, payload.email@, payload.action, code@, Some(now))
                &&& payload.action == Action::Signup ==> (a.password_hash matches Some(h) && password_matches(
                    payload.password@,
                    h@,
                ))
                &&& payload.action != Action::Signup ==> a.password_hash is None
            },
    {
        match self.users.get_user(payload.email.as_str()) {
            None => {
                if payload.action != Action::Signup {
                    return Ok(None);
                }
                let h = hash_password(payload.password.as_str())?;
                Ok(Some(RedisAccount {
                    email: payload.email.clone(),
                    action: payload.action,
                    code: code.to_owned(),
                    issued_timestamp: Some(now),
                    password_hash: Some(h),
                }))
            },
            Some((hash, locked)) => {
                if payload.action != Action::Login || locked {
                    return Ok(None);
                }
                let ok = match hash {
                    Some(h) => verify_password(payload.password.as_str(), h.as_str())?,
                    None => false,
                };
                if !ok {
                    return Ok(None);
                }
                Ok(Some(RedisAccount {
                    email: payload.email.clone(),
                    action: payload.action,
                    code: code.to_owned(),
                    issued_timestamp: Some(now),
                    password_hash: None,
                }))
            },
        }
    }

    /// Starts a sign-up or login: checks the request, consults the user
    /// table, and stores a pending action under `id` with one-time `code`.
    pub fn authenticate(&mut self, payload: &Account, now: i64, code: &str, id: &str) -> (r: Reply)
        ensures
            authenticate_post(old(self), final(self), payload, now, code@, id@, &r),
    {
        if payload.action == Action::Forgot {
            return refuse(Status::Unauthorized);
        }
        match validate_account(payload.email.as_str(), payload.password.as_str()) {
            Err(e) => {
                return Reply { status: Status::BadRequest, message: e, cookies: Vec::new(), mail: None };
            },
            Ok(()) => {},
        }
        match self.create_redis_account(payload, now, code) {
            Err(_) => refuse(Status::ServerError),
            Ok(None) => refuse(Status::Unauthorized),
            Ok(Some(a)) => self.create_temporary_session(a, RedisAction::Auth, id, now),
        }
    }

    /// Freezes `email`: unless it is locked already, records `now` plus the
    /// grace window as its freeze timestamp for fifteen minutes, locks it
    /// durably and revokes all its sessions.
    pub fn freeze_account(&mut self, email: &str, now: i64)
        ensures
            freeze_post(old(self), final(self), email@, now),
    {
        if self.users.check_lock(email) {
            return;
        }
        let ghost set = self.store.spec_set(sessions_key(email@));
        let until: i64 = if now > i64::MAX - FREEZE_GRACE_MS {
            i64::MAX
        } else {
            now + FREEZE_GRACE_MS
        };
        insert_id(&mut self.store, RedisAction::LockedTime.as_str(), email, StoreValue::Millis(until), FREEZE_TTL_MS, now);
        self.users.update_lock(email, true);
        proof {
            reveal_strlit("locked_timestamp");
            reveal_strlit("session_id");
            assert forall|k: Seq<char>| revoked_key(set, k) implies k != freeze_key(email@) by {
                let j = choose|j: int| 0 <= j < set.len() && session_key((#[trigger] set[j]).member@) == k;
                lemma_key_distinct(
                    RedisAction::Session.spec_prefix(),
                    RedisAction::LockedTime.spec_prefix(),
                    set[j].member@,
                    email@,
                    0,
                );
            }
        }
        delete_all_sessions(&mut self.store, email);
    }

    /// Starts a recovery for `email`: freezes it, then stores a pending
    /// recovery under `id` with one-time `code`. An identity locked already
    /// gets the same answer.
    pub fn forgot(&mut self, email: &str, now: i64, code: &str, id: &str) -> (r: Reply)
        ensures
            forgot_post(old(self), final(self), email@, now, code@, id@, &r),
    {
        if validate_email(email).is_err() {
            return refuse(Status::Unauthorized);
        }
        self.freeze_account(email, now);
        let ghost mid = *self;
        let account = RedisAccount {
            email: email.to_owned(),
            action: Action::Forgot,
            code: code.to_owned(),
            issued_timestamp: None,
            password_hash: None,
        };
        let r = self.create_temporary_session(account, RedisAction::Forgot, id, now);
        proof {
            assert(self.users == mid.users);
        }
        r
    }

    /// Ends the session that the request's cookie names, if any; always
    /// answers 200 and clears every flow cookie.
    pub fn logout(&mut self, cookies: &Vec<(String, String)>) -> (r: Reply)
        ensures
            logout_post(old(self), final(self), cookies@, &r),
    {
        proof {
            reveal_strlit("");
            assert(""@ =~= Seq::<char>::empty());
        }
        match get_cookie(cookies, RedisAction::Session.as_str()) {
            Some(sid) => {
                remove_id(&mut self.store, RedisAction::Session.as_str(), sid.as_str());
            },
            None => {},
        }
        Reply {
            status: Status::Success,
            message: "",
            cookies: generate_cookie(RedisAction::Session.as_str(), "", 0),
            mail: None,
        }
    }

    /// Whether a login of `email` issued at `issued` is frozen at `now`.
    pub fn check_locks(&self, email: &str, issued: Option<i64>, now: i64) -> (r: bool)
        ensures
            r == login_frozen(self, email@, issued, now),
    {
        if self.users.check_lock(email) {
            return true;
        }
        match try_get(&self.store, RedisAction::LockedTime.as_str(), email, now) {
            Some(StoreValue::Millis(t)) => match issued {
                Some(i) => i < t,
                None => true,
            },
            Some(_) => true,
            None => issued.is_none(),
        }
    }

    /// Unlocks `email` and sets its password to `password`.
    pub fn unfreeze_account(&mut self, email: &str, password: &str) -> (r: Result<(), AppError>)
        ensures
            r is Err ==> *final(self) == *old(self),
            r is Ok ==> (final(self).users.spec_user(email@) matches Some(u) && !u.locked
                && (u.password_hash matches Some(h) && password_matches(password@, h@))),
            r is Ok ==> old(self).users.same_but(&final(self).users, email@),
            final(self).store == old(self).store,
            final(self).max_sessions == old(self).max_sessions,
    {
        let h = hash_password(password)?;
        self.users.unlock_account(email, h.as_str());
        Ok(())
    }

    /// Creates session `fresh_id` for the verified action `a`; where
    /// `write_identity` holds (a verified sign-up), the identity is written now.
    /// Only keys of the session namespaces, which begin with `s`, change.
    fn create_session(&mut self, a: &RedisAccount, write_identity: bool, fresh_id: &str, now: i64) -> (r: Reply)
        ensures
            r.status == Status::Success,
            r.mail is None,
            jar_view(r.cookies@) == cookie_jar(RedisAction::Session.spec_prefix(), fresh_id@, SESSION_TTL_SECS),
            old(self).users.same_but(&final(self).users, a.email@),
            write_identity ==> (final(self).users.spec_user(a.email@) matches Some(u) && !u.locked
                && u.password_hash == a.password_hash),
            !write_identity ==> final(self).users == old(self).users,
            final(self).max_sessions == old(self).max_sessions,
            old(self).store.spec_set(sessions_key(a.email@)).len() <= old(self).max_sessions
                ==> final(self).store.spec_set(sessions_key(a.email@)).len() <= old(self).max_sessions,
            final(self).store.spec_set(sessions_key(a.email@)).len() <= old(self).store.spec_set(sessions_key(a.email@)).len() + 1,
            old(self).store.spec_set(sessions_key(a.email@)).len() + 1 <= old(self).max_sessions ==> marked_until(
                &final(self).store,
                session_key(fresh_id@),
                expiry(now, SESSION_TTL_MS),
            ),
            forall|k: Seq<char>| !(k.len() > 0 && k[0] == 's') ==> #[trigger] lookup(final(self).store.entries(), k)
                == lookup(old(self).store.entries(), k),
            after_insert(
                zview(old(self).store.spec_set(sessions_key(a.email@))),
                fresh_id@,
                now,
                old(self).max_sessions,
                zview(final(self).store.spec_set(sessions_key(a.email@))),
            ),
            live_if_member(&final(self).store, zview(final(self).store.spec_set(sessions_key(a.email@))), fresh_id@, now),
            forall|k: Seq<char>| k != sessions_key(a.email@) ==> #[trigger] final(self).store.spec_set(k)
                == old(self).store.spec_set(k),
    {
        if write_identity {
            self.users.insert_user(a.email.as_str(), crate::models::copy_opt_string(&a.password_hash));
        }
        let ghost before = self.store;
        let evicted = insert_session(&mut self.store, fresh_id, a.email.as_str(), now, self.max_sessions);
        proof {
            reveal_strlit("session_id");
            assert forall|k: Seq<char>| !(k.len() > 0 && k[0] == 's') implies #[trigger] lookup(self.store.entries(), k)
                == lookup(before.entries(), k) by {
                assert(session_key(fresh_id@)[0] == 's');
                if evicted is Some {
                    assert(session_key(evicted->0@)[0] == 's');
                }
            }
        }
        Reply {
            status: Status::Success,
            message: "",
            cookies: generate_cookie(RedisAction::Session.as_str(), fresh_id, SESSION_TTL_SECS),
            mail: None,
        }
    }

    /// The flow cookie of the request, its identifier, and the pending
    /// action that the identifier's key holds at `now`.
    pub fn verify_token(&self, cookies: &Vec<(String, String)>, now: i64) -> (r: Option<(Option<RedisAccount>, RedisAction, String)>)
        ensures
            match located(cookies@) {
                None => r is None,
                Some((flow, v)) => r matches Some((res, f, id)) && f == flow && id@ == v
                    && res == pending_at(&self.store, pending_key(flow, v), now),
            },
    {
        match get_cookie(cookies, RedisAction::Forgot.as_str()) {
            Some(id) => {
                return Some((self.pending(RedisAction::Forgot, id.as_str(), now), RedisAction::Forgot, id));
            },
            None => {},
        }
        match get_cookie(cookies, RedisAction::Auth.as_str()) {
            Some(id) => {
                return Some((self.pending(RedisAction::Auth, id.as_str(), now), RedisAction::Auth, id));
            },
            None => {},
        }
        match get_cookie(cookies, RedisAction::Update.as_str()) {
            Some(id) => Some((self.pending(RedisAction::Update, id.as_str(), now), RedisAction::Update, id)),
            None => None,
        }
    }

    /// The pending action of `flow` under `id` at `now`.
    fn pending(&self, flow: RedisAction, id: &str, now: i64) -> (r: Option<RedisAccount>)
        ensures
            r == pending_at(&self.store, pending_key(flow, id@), now),
    {
        match try_get(&self.store, flow.as_str(), id, now) {
            Some(StoreValue::Pending(a)) => Some(a),
            _ => None,
        }
    }

    /// Verifies `token` against the pending action `result` that was read
    /// under `id` in the namespace of `flow`; `fresh_id` names what a success
    /// creates (the update step or the session).
    pub fn verify_pending(
        &mut self,
        flow: RedisAction,
        id: &str,
        result: Option<RedisAccount>,
        token: &str,
        now: i64,
        fresh_id: &str,
    ) -> (r: Reply)
        requires
            is_flow(flow),
        ensures
            verify_pending_post(old(self), final(self), flow, id@, result, token@, now, fresh_id@, &r),
    {
        let shape_ok = if flow == RedisAction::Update {
            validate_password(token).is_ok()
        } else {
            validate_code(token)
        };
        if !shape_ok {
            return refuse(Status::Unauthorized);
        }
        let a = match result {
            Some(a) => a,
            None => {
                return refuse(Status::Unauthorized);
            },
        };
        if is_temporarily_locked(&mut self.store, RedisAction::LockedTemporary.as_str(), id, ATTEMPT_LOCK_TTL_MS, now) {
            return refuse(Status::Unauthorized);
        }
        let ghost locked = *self;
        let frozen = flow == RedisAction::Auth && self.check_locks(a.email.as_str(), a.issued_timestamp, now);
        let matches = flow == RedisAction::Update || token.to_owned() == a.code;
        proof {
            reveal_strlit("temporary_lock");
            reveal_strlit("locked_timestamp");
            reveal_strlit("auth_id");
            reveal_strlit("forgot_id");
            reveal_strlit("update");
            reveal_strlit("session_id");
            lemma_key_distinct(flow.spec_prefix(), RedisAction::LockedTemporary.spec_prefix(), id@, id@, 0);
            assert(frozen == (flow == RedisAction::Auth && login_frozen(old(self), a.email@, a.issued_timestamp, now))) by {
                assert(old(self).users == self.users);
                if flow == RedisAction::Auth {
                    lemma_key_distinct(
                        RedisAction::LockedTime.spec_prefix(),
                        RedisAction::LockedTemporary.spec_prefix(),
                        a.email@,
                        id@,
                        0,
                    );
                }
            }
        }
        remove_id(&mut self.store, flow.as_str(), id);
        let ghost consumed = *self;
        if frozen {
            remove_id(&mut self.store, RedisAction::LockedTemporary.as_str(), id);
            proof {
                assert forall|k: Seq<char>| k != lock_key(id@) && k != pending_key(flow, id@)
                    implies #[trigger] lookup(self.store.entries(), k) == lookup(old(self).store.entries(), k) by {
                    assert(lookup(self.store.entries(), k) == lookup(consumed.store.entries(), k));
                    assert(lookup(consumed.store.entries(), k) == lookup(locked.store.entries(), k));
                }
            }
            return refuse(Status::Unauthorized);
        }
        if !matches {
            proof {
                assert forall|k: Seq<char>| k != lock_key(id@) && k != pending_key(flow, id@)
                    implies #[trigger] lookup(self.store.entries(), k) == lookup(old(self).store.entries(), k) by {
                    assert(lookup(consumed.store.entries(), k) == lookup(locked.store.entries(), k));
                }
            }
            return refuse(Status::Unauthorized);
        }
        if flow == RedisAction::Forgot {
            proof {
                lemma_key_distinct(RedisAction::Update.spec_prefix(), RedisAction::LockedTemporary.spec_prefix(), fresh_id@, id@, 0);
                lemma_key_distinct(RedisAction::Update.spec_prefix(), RedisAction::Forgot.spec_prefix(), fresh_id@, id@, 0);
            }
            let r = self.create_temporary_session(a, RedisAction::Update, fresh_id, now);
            proof {
                assert forall|k: Seq<char>|
                    k != lock_key(id@) && k != pending_key(flow, id@) && k != pending_key(RedisAction::Update, fresh_id@)
                    implies #[trigger] lookup(self.store.entries(), k) == lookup(old(self).store.entries(), k) by {
                    assert(lookup(self.store.entries(), k) == lookup(consumed.store.entries(), k));
                    assert(lookup(consumed.store.entries(), k) == lookup(locked.store.entries(), k));
                }
            }
            return r;
        }
        if flow == RedisAction::Update {
            match self.unfreeze_account(a.email.as_str(), token) {
                Err(_) => {
                    return refuse(Status::ServerError);
                },
                Ok(()) => {},
            }
        }
        let ghost unfrozen = *self;
        let write_identity = flow == RedisAction::Auth && a.action == Action::Signup;
        let r = self.create_session(&a, write_identity, fresh_id, now);
        proof {
            assert(unfrozen.store.members() == old(self).store.members());
            assert forall|k: Seq<char>| k != sessions_key(a.email@) implies #[trigger] self.store.spec_set(k)
                == old(self).store.spec_set(k) by {
                assert(self.store.spec_set(k) == unfrozen.store.spec_set(k));
            }
            assert(unfrozen.store.spec_set(sessions_key(a.email@)) == old(self).store.spec_set(sessions_key(a.email@)));
            assert(old(self).users.same_but(&self.users, a.email@));
            assert(lock_key(id@)[0] == 't');
            assert(pending_key(flow, id@)[0] != 's');
        }
        r
    }

    /// Verifies `token` (a one-time code, or the new password of the update
    /// step) for the flow cookie of the request; `fresh_id` names what a
    /// success creates.
    pub fn verify(&mut self, cookies: &Vec<(String, String)>, token: &str, now: i64, fresh_id: &str) -> (r: Reply)
        ensures
            verify_post(old(self), final(self), cookies@, token@, now, fresh_id@, &r),
    {
        match self.verify_token(cookies, now) {
            None => refuse(Status::Unauthorized),
            Some((result, flow, id)) => self.verify_pending(flow, id.as_str(), result, token, now, fresh_id),
        }
    }
    /// Handles a sign-up or login request: draws a code and an identifier,
    /// reads the clock, then does what `authenticate` does.
    pub fn authenticate_handler(&mut self, payload: &Account) -> (r: Reply)
        ensures
            exists|now: i64, code: Seq<char>, id: Seq<char>|
                authenticate_post(old(self), final(self), payload, now, code, id, &r) && drawn(code, id),
    {
        let now = now_millis();
        let code = generate_code();
        let id = new_identifier();
        self.authenticate(payload, now, code.as_str(), id.as_str())
    }

    /// Handles a recovery request: draws a code and an identifier, reads the
    /// clock, then does what `forgot` does.
    pub fn forgot_handler(&mut self, email: &str) -> (r: Reply)
        ensures
            exists|now: i64, code: Seq<char>, id: Seq<char>|
                forgot_post(old(self), final(self), email@, now, code, id, &r) && drawn(code, id),
    {
        let now = now_millis();
        let code = generate_code();
        let id = new_identifier();
        self.forgot(email, now, code.as_str(), id.as_str())
    }

    /// Handles a verification: draws the identifier of what a success
    /// creates, reads the clock, then does what `verify` does.
    pub fn verify_handler(&mut self, cookies: &Vec<(String, String)>, token: &str) -> (r: Reply)
        ensures
            exists|now: i64, fresh_id: Seq<char>|
                verify_post(old(self), final(self), cookies@, token@, now, fresh_id, &r) && fresh_id.len() == 36,
    {
        let now = now_millis();
        let fresh_id = new_identifier();
        self.verify(cookies, token, now, fresh_id.as_str())
    }

    /// Handles a logout: what `logout` does.
    pub fn delete_handler(&mut self, cookies: &Vec<(String, String)>) -> (r: Reply)
        ensures
            logout_post(old(self), final(self), cookies@, &r),
    {
        self.logout(cookies)
    }
}

} // verus!
