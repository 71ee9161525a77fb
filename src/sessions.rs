use vstd::prelude::*;
use crate::models::{RedisAction, join_key, spec_key, lemma_key_injective};
use crate::store::{
    KvStore, StoreValue, ZMember, lookup, expiry, zview, drop_member, is_first_lowest, lemma_drop_member_absent,
};

verus! {

/// How long a session lives, in milliseconds.
pub const SESSION_TTL_MS: u32 = 3600000;

pub open spec fn session_key(session_id: Seq<char>) -> Seq<char> {
    spec_key(RedisAction::Session.spec_prefix(), session_id)
}

pub open spec fn sessions_key(email: Seq<char>) -> Seq<char> {
    spec_key(RedisAction::SessionStore.spec_prefix(), email)
}

/// Whether session `session_id` is valid at `now`: its liveness key, not set
/// membership, decides.
pub open spec fn session_live(store: &KvStore, session_id: Seq<char>, now: i64) -> bool {
    store.spec_get(session_key(session_id), now) is Some
}

/// Whether session `session_id` is valid at `now`: an existence check on
/// its liveness key only.
pub fn is_live(store: &KvStore, session_id: &str, now: i64) -> (r: bool)
    ensures
        r == session_live(store, session_id@, now),
{
    let key = join_key(RedisAction::Session.as_str(), session_id);
    store.contains(key.as_str(), now)
}

/// Whether `key` holds a flag until `expires_at`.
pub open spec fn marked_until(store: &KvStore, key: Seq<char>, expires_at: i64) -> bool {
    lookup(store.entries(), key) matches Some(e) && e.value == StoreValue::Marker && e.expires_at == expires_at
}

/// Whether `v` is what inserting session `sid` at `now` makes of the set
/// `v0` under a cap of `max`: `sid` is added with score `now` (replacing an
/// earlier entry of it), and where that exceeds the cap, the entry with the
/// lowest score, the first among equals, leaves.
pub open spec fn after_insert(v0: Seq<(Seq<char>, i64)>, sid: Seq<char>, now: i64, max: u8, v: Seq<(Seq<char>, i64)>) -> bool {
    let v1 = drop_member(v0, sid).push((sid, now));
    if v1.len() <= max {
        v == v1
    } else {
        exists|j: int| is_first_lowest(v1, j) && v == v1.remove(j)
    }
}

/// Whether session `sid` is live for an hour from `now` whenever the set `v`
/// holds it.
pub open spec fn live_if_member(store: &KvStore, v: Seq<(Seq<char>, i64)>, sid: Seq<char>, now: i64) -> bool {
    (exists|j: int| 0 <= j < v.len() && (#[trigger] v[j]).0 == sid) ==> marked_until(
        store,
        session_key(sid),
        expiry(now, SESSION_TTL_MS),
    )
}

/// Whether `m` is a member of `set`.
pub open spec fn member_of(set: Seq<ZMember>, m: Seq<char>) -> bool {
    exists|j: int| 0 <= j < set.len() && (#[trigger] set[j]).member@ == m
}

/// Makes session `session_id` of `email` live for an hour and records it in
/// the identity's sorted set, scored by `now`. Where the set then holds more
/// than `max_sessions` members, the one with the lowest score (the oldest)
/// leaves the set and its liveness key is deleted too, so that the cap bounds
/// the valid sessions as well as the set; that member is returned.
pub fn insert_session(store: &mut KvStore, session_id: &str, email: &str, now: i64, max_sessions: u8)
    -> (r: Option<String>)
    ensures
        old(store).spec_set(sessions_key(email@)).len() <= max_sessions
            ==> final(store).spec_set(sessions_key(email@)).len() <= max_sessions,
        final(store).spec_set(sessions_key(email@)).len() <= old(store).spec_set(sessions_key(email@)).len() + 1,
        old(store).spec_set(sessions_key(email@)).len() + 1 <= max_sessions ==> r is None,
        forall|k: Seq<char>| k != sessions_key(email@) ==> #[trigger] final(store).spec_set(k) == old(store).spec_set(k),
        forall|x: ZMember| #[trigger] final(store).spec_set(sessions_key(email@)).contains(x) ==>
            old(store).spec_set(sessions_key(email@)).contains(x) || (x.member@ == session_id@ && x.score == now),
        r is None ==> marked_until(final(store), session_key(session_id@), expiry(now, SESSION_TTL_MS)),
        r matches Some(m) ==> m@ != session_id@ ==> marked_until(
            final(store),
            session_key(session_id@),
            expiry(now, SESSION_TTL_MS),
        ),
        r matches Some(m) ==> lookup(final(store).entries(), session_key(m@)) is None,
        r matches Some(m) ==> member_of(old(store).spec_set(sessions_key(email@)), m@) || m@ == session_id@,
        forall|k: Seq<char>| k != session_key(session_id@) && (r matches Some(m) ==> k != session_key(m@))
            ==> #[trigger] lookup(final(store).entries(), k) == lookup(old(store).entries(), k),
        after_insert(
            zview(old(store).spec_set(sessions_key(email@))),
            session_id@,
            now,
            max_sessions,
            zview(final(store).spec_set(sessions_key(email@))),
        ),
        live_if_member(final(store), zview(final(store).spec_set(sessions_key(email@))), session_id@, now),
        ({
            let v1 = drop_member(zview(old(store).spec_set(sessions_key(email@))), session_id@).push((session_id@, now));
            &&& v1.len() <= max_sessions ==> r is None
            &&& v1.len() > max_sessions ==> (r is Some && exists|j: int|
                is_first_lowest(v1, j) && r->0@ == v1[j].0 && zview(final(store).spec_set(sessions_key(email@)))
                    == v1.remove(j))
        }),
{
    let ghost s0 = *store;
    let key = join_key(RedisAction::Session.as_str(), session_id);
    store.set_ex(key.as_str(), StoreValue::Marker, SESSION_TTL_MS, now);
    let set_key = join_key(RedisAction::SessionStore.as_str(), email);
    let ghost mid = store.spec_set(set_key@);
    let ghost s1 = *store;
    store.zadd(set_key.as_str(), session_id, now);
    let ghost s2 = *store;
    proof {
        assert(s1.members() == s0.members());
        assert forall|k: Seq<char>| k != sessions_key(email@) implies #[trigger] s2.spec_set(k) == s0.spec_set(k) by {
            assert(s2.spec_set(k) == s1.spec_set(k));
        }
    }
    let ghost v1 = drop_member(zview(s0.spec_set(set_key@)), session_id@).push((session_id@, now));
    proof {
        assert(s1.spec_set(set_key@) == s0.spec_set(set_key@));
        assert(zview(s2.spec_set(set_key@)) == v1);
        lemma_drop_member_absent(zview(s0.spec_set(set_key@)), session_id@);
    }
    if store.zcard(set_key.as_str()) > max_sessions as usize {
        let ghost before_pop = store.spec_set(set_key@);
        match store.zpop_min(set_key.as_str()) {
            Some(evicted) => {
                proof {
                    let j = choose|j: int| 0 <= j < before_pop.len() && (#[trigger] before_pop[j]).member
                        == evicted && forall|l: int| 0 <= l < before_pop.len() ==> before_pop[j].score
                        <= #[trigger] before_pop[l].score;
                    assert(before_pop.contains(before_pop[j]));
                    if !(before_pop[j].member@ == session_id@) {
                        assert(mid.contains(before_pop[j]));
                        let i = choose|i: int| 0 <= i < mid.len() && mid[i] == before_pop[j];
                        assert(mid[i].member@ == evicted@);
                    }
                    lemma_key_injective(RedisAction::Session.spec_prefix(), evicted@, session_id@);
                }
                let ghost s3 = *store;
                let evicted_key = join_key(RedisAction::Session.as_str(), evicted.as_str());
                store.del(evicted_key.as_str());
                proof {
                    assert(store.members() == s3.members());
                    assert(store.spec_set(set_key@) == s3.spec_set(set_key@));
                    let d = drop_member(zview(s0.spec_set(set_key@)), session_id@);
                    let j = choose|j: int| is_first_lowest(v1, j) && evicted@ == v1[j].0
                        && zview(s3.spec_set(set_key@)) == v1.remove(j);
                    if evicted@ == session_id@ {
                        if j < d.len() {
                            assert(v1[j] == d[j]);
                        }
                        assert(v1.remove(j) =~= d);
                    }
                    assert forall|k: Seq<char>| k != sessions_key(email@) implies #[trigger] store.spec_set(k)
                        == s0.spec_set(k) by {
                        assert(s3.spec_set(k) == s2.spec_set(k));
                    }
                }
                Some(evicted)
            },
            None => None,
        }
    } else {
        None
    }
}

/// The keys that revoking `members` deletes.
pub open spec fn revoked_key(members: Seq<ZMember>, k: Seq<char>) -> bool {
    exists|j: int| 0 <= j < members.len() && session_key((#[trigger] members[j]).member@) == k
}

/// Revokes every session of `email`: deletes the liveness key of each member
/// of its sorted set, then the set itself.
pub fn delete_all_sessions(store: &mut KvStore, email: &str)
    ensures
        final(store).spec_set(sessions_key(email@)).len() == 0,
        forall|k: Seq<char>| k != sessions_key(email@) ==> #[trigger] final(store).spec_set(k) == old(store).spec_set(k),
        forall|j: int| 0 <= j < old(store).spec_set(sessions_key(email@)).len() ==> lookup(
            final(store).entries(),
            session_key((#[trigger] old(store).spec_set(sessions_key(email@))[j]).member@),
        ) is None,
        forall|k: Seq<char>| !revoked_key(old(store).spec_set(sessions_key(email@)), k)
            ==> #[trigger] lookup(final(store).entries(), k) == lookup(old(store).entries(), k),
{
    let set_key = join_key(RedisAction::SessionStore.as_str(), email);
    let members = store.zmembers(set_key.as_str());
    let ghost set = store.spec_set(set_key@);
    let ghost start = store.entries();
    let mut i: usize = 0;
    while i < members.len()
        invariant
            i <= members@.len(),
            members@.len() == set.len(),
            forall|j: int| 0 <= j < members@.len() ==> members@[j] == #[trigger] set[j].member,
            set == old(store).spec_set(set_key@),
            set_key@ == sessions_key(email@),
            start == old(store).entries(),
            store.members() == old(store).members(),
            forall|j: int| 0 <= j < i ==> lookup(store.entries(), session_key((#[trigger] set[j]).member@)) is None,
            forall|k: Seq<char>| !revoked_key(set.take(i as int), k)
                ==> #[trigger] lookup(store.entries(), k) == lookup(start, k),
        decreases members@.len() - i,
    {
        let key = join_key(RedisAction::Session.as_str(), members[i].as_str());
        store.del(key.as_str());
        proof {
            assert forall|k: Seq<char>| !revoked_key(set.take(i + 1), k)
                implies #[trigger] lookup(store.entries(), k) == lookup(start, k) by {
                assert(set.take(i + 1)[i as int] == set[i as int]);
                if revoked_key(set.take(i as int), k) {
                    let j = choose|j: int| 0 <= j < i && session_key((#[trigger] set.take(i as int)[j]).member@) == k;
                    assert(set.take(i + 1)[j] == set.take(i as int)[j]);
                }
            }
        }
        i = i + 1;
    }
    proof {
        assert(set.take(set.len() as int) =~= set);
    }
    store.zdel(set_key.as_str());
}

} // verus!
