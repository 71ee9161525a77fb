use vstd::prelude::*;
use crate::models::{RedisAccount, join_key, spec_key};

verus! {

/// What a key of the volatile store holds.
pub enum StoreValue {
    /// A serialized pending action.
    Pending(RedisAccount),
    /// A flag whose presence is all that counts.
    Marker,
    /// A timestamp in milliseconds.
    Millis(i64),
}

impl StoreValue {
    /// A copy equal to `self`.
    pub fn duplicate(&self) -> (r: StoreValue)
        ensures
            r == *self,
    {
        match self {
            StoreValue::Pending(a) => StoreValue::Pending(a.duplicate()),
            StoreValue::Marker => StoreValue::Marker,
            StoreValue::Millis(t) => StoreValue::Millis(*t),
        }
    }
}

/// A key, its value and the instant (in milliseconds) from which it is gone.
pub struct Entry {
    pub key: String,
    pub value: StoreValue,
    pub expires_at: i64,
}

impl Entry {
    fn duplicate(&self) -> (r: Entry)
        ensures
            r == *self,
    {
        Entry { key: self.key.clone(), value: self.value.duplicate(), expires_at: self.expires_at }
    }
}

/// A member of a sorted set, with its score.
pub struct ZMember {
    pub name: String,
    pub member: String,
    pub score: i64,
}

impl ZMember {
    fn duplicate(&self) -> (r: ZMember)
        ensures
            r == *self,
    {
        ZMember { name: self.name.clone(), member: self.member.clone(), score: self.score }
    }
}

/// The latest entry of key `k`.
pub open spec fn lookup(s: Seq<Entry>, k: Seq<char>) -> Option<Entry>
    decreases s.len(),
{
    if s.len() == 0 {
        None
    } else if s.last().key@ == k {
        Some(s.last())
    } else {
        lookup(s.drop_last(), k)
    }
}

/// `s` without any entry of key `k`.
pub open spec fn without_key(s: Seq<Entry>, k: Seq<char>) -> Seq<Entry>
    decreases s.len(),
{
    if s.len() == 0 {
        s
    } else if s.last().key@ == k {
        without_key(s.drop_last(), k)
    } else {
        without_key(s.drop_last(), k).push(s.last())
    }
}

/// The members of set `k`, in the order they were added.
pub open spec fn in_set(s: Seq<ZMember>, k: Seq<char>) -> Seq<ZMember>
    decreases s.len(),
{
    if s.len() == 0 {
        s
    } else if s.last().name@ == k {
        in_set(s.drop_last(), k).push(s.last())
    } else {
        in_set(s.drop_last(), k)
    }
}

/// `s` without the members of set `k`.
pub open spec fn without_set(s: Seq<ZMember>, k: Seq<char>) -> Seq<ZMember>
    decreases s.len(),
{
    if s.len() == 0 {
        s
    } else if s.last().name@ == k {
        without_set(s.drop_last(), k)
    } else {
        without_set(s.drop_last(), k).push(s.last())
    }
}

/// `s` without member `m` of set `k`.
pub open spec fn without_member(s: Seq<ZMember>, k: Seq<char>, m: Seq<char>) -> Seq<ZMember>
    decreases s.len(),
{
    if s.len() == 0 {
        s
    } else if s.last().name@ == k && s.last().member@ == m {
        without_member(s.drop_last(), k, m)
    } else {
        without_member(s.drop_last(), k, m).push(s.last())
    }
}

/// The value of an entry that is still there at `now`.
pub open spec fn live_value(e: Option<Entry>, now: i64) -> Option<StoreValue> {
    match e {
        Some(e) => if e.expires_at > now { Some(e.value) } else { None },
        None => None,
    }
}

/// `now + ttl`, held at the largest instant.
pub open spec fn expiry(now: i64, ttl: u32) -> i64 {
    if now + ttl > i64::MAX { i64::MAX } else { (now + ttl) as i64 }
}

proof fn lemma_lookup_push(s: Seq<Entry>, e: Entry, k: Seq<char>)
    ensures
        lookup(s.push(e), k) == if e.key@ == k { Some(e) } else { lookup(s, k) },
{
    assert(s.push(e).drop_last() =~= s);
}

proof fn lemma_lookup_without_key(s: Seq<Entry>, k: Seq<char>, k2: Seq<char>)
    ensures
        lookup(without_key(s, k), k2) == if k2 == k { None } else { lookup(s, k2) },
    decreases s.len(),
{
    if s.len() > 0 {
        lemma_lookup_without_key(s.drop_last(), k, k2);
        if s.last().key@ != k {
            lemma_lookup_push(without_key(s.drop_last(), k), s.last(), k2);
        }
    }
}

proof fn lemma_take_last<A>(s: Seq<A>, i: int)
    requires
        0 <= i < s.len(),
    ensures
        s.take(i + 1).drop_last() =~= s.take(i),
        s.take(i + 1).last() == s[i],
{
}

proof fn lemma_in_set_push(s: Seq<ZMember>, x: ZMember, k: Seq<char>)
    ensures
        in_set(s.push(x), k) == if x.name@ == k { in_set(s, k).push(x) } else { in_set(s, k) },
{
    assert(s.push(x).drop_last() =~= s);
}

proof fn lemma_in_set_without_set(s: Seq<ZMember>, k: Seq<char>, k2: Seq<char>)
    ensures
        in_set(without_set(s, k), k2) == if k2 == k { Seq::<ZMember>::empty() } else { in_set(s, k2) },
    decreases s.len(),
{
    if s.len() > 0 {
        lemma_in_set_without_set(s.drop_last(), k, k2);
        if s.last().name@ != k {
            lemma_in_set_push(without_set(s.drop_last(), k), s.last(), k2);
        }
    } else {
        assert(in_set(s, k2) =~= Seq::<ZMember>::empty());
    }
}

proof fn lemma_in_set_without_member(s: Seq<ZMember>, k: Seq<char>, m: Seq<char>, k2: Seq<char>)
    ensures
        k2 != k ==> in_set(without_member(s, k, m), k2) == in_set(s, k2),
        in_set(without_member(s, k, m), k).len() <= in_set(s, k).len(),
        forall|x: ZMember| #[trigger] in_set(without_member(s, k, m), k).contains(x)
            ==> in_set(s, k).contains(x),
    decreases s.len(),
{
    if s.len() > 0 {
        let t = s.drop_last();
        lemma_in_set_without_member(t, k, m, k2);
        lemma_in_set_push(t, s.last(), k);
        lemma_in_set_push(t, s.last(), k2);
        if !(s.last().name@ == k && s.last().member@ == m) {
            lemma_in_set_push(without_member(t, k, m), s.last(), k);
            lemma_in_set_push(without_member(t, k, m), s.last(), k2);
        }
        assert forall|x: ZMember| #[trigger] in_set(without_member(s, k, m), k).contains(x)
            implies in_set(s, k).contains(x) by {
            if in_set(without_member(t, k, m), k).contains(x) {
                let j = choose|j: int| 0 <= j < in_set(without_member(t, k, m), k).len()
                    && in_set(without_member(t, k, m), k)[j] == x;
                assert(in_set(t, k).contains(x));
                let j2 = choose|j2: int| 0 <= j2 < in_set(t, k).len() && in_set(t, k)[j2] == x;
                if s.last().name@ == k {
                    assert(in_set(s, k)[j2] == x);
                } else {
                    assert(in_set(s, k)[j2] == x);
                }
            } else {
                if !(s.last().name@ == k && s.last().member@ == m) && s.last().name@ == k {
                    assert(in_set(s, k)[in_set(s, k).len() - 1] == s.last());
                }
            }
        }
    }
}

/// A set as its `(member, score)` pairs, in order.
pub open spec fn zview(s: Seq<ZMember>) -> Seq<(Seq<char>, i64)> {
    s.map_values(|x: ZMember| (x.member@, x.score))
}

/// `v` without the entries of member `m`.
pub open spec fn drop_member(v: Seq<(Seq<char>, i64)>, m: Seq<char>) -> Seq<(Seq<char>, i64)>
    decreases v.len(),
{
    if v.len() == 0 {
        v
    } else if v.last().0 == m {
        drop_member(v.drop_last(), m)
    } else {
        drop_member(v.drop_last(), m).push(v.last())
    }
}

/// Whether entry `j` of `v` has the lowest score, and no earlier entry has it.
pub open spec fn is_first_lowest(v: Seq<(Seq<char>, i64)>, j: int) -> bool {
    &&& 0 <= j < v.len()
    &&& forall|l: int| 0 <= l < v.len() ==> v[j].1 <= #[trigger] v[l].1
    &&& forall|l: int| 0 <= l < j ==> v[j].1 < #[trigger] v[l].1
}

pub proof fn lemma_drop_member_absent(v: Seq<(Seq<char>, i64)>, m: Seq<char>)
    ensures
        forall|j: int| 0 <= j < drop_member(v, m).len() ==> (#[trigger] drop_member(v, m)[j]).0 != m,
    decreases v.len(),
{
    if v.len() > 0 {
        let d = drop_member(v.drop_last(), m);
        lemma_drop_member_absent(v.drop_last(), m);
        if v.last().0 != m {
            assert forall|j: int| 0 <= j < d.push(v.last()).len() implies (#[trigger] d.push(v.last())[j]).0 != m by {
                if j < d.len() {
                    assert(d.push(v.last())[j] == d[j]);
                }
            }
        }
    }
}

proof fn lemma_zview_push(s: Seq<ZMember>, x: ZMember)
    ensures
        zview(s.push(x)) == zview(s).push((x.member@, x.score)),
{
    assert(zview(s.push(x)) =~= zview(s).push((x.member@, x.score)));
}

proof fn lemma_zview_without_member(s: Seq<ZMember>, k: Seq<char>, m: Seq<char>)
    ensures
        zview(in_set(without_member(s, k, m), k)) == drop_member(zview(in_set(s, k)), m),
    decreases s.len(),
{
    if s.len() == 0 {
        assert(zview(in_set(s, k)) =~= Seq::<(Seq<char>, i64)>::empty());
        assert(zview(in_set(without_member(s, k, m), k)) =~= Seq::<(Seq<char>, i64)>::empty());
    } else {
        let t = s.drop_last();
        let x = s.last();
        lemma_zview_without_member(t, k, m);
        lemma_in_set_push(t, x, k);
        assert(s =~= t.push(x));
        if x.name@ == k {
            lemma_zview_push(in_set(t, k), x);
            let v = zview(in_set(t, k)).push((x.member@, x.score));
            assert(v.drop_last() =~= zview(in_set(t, k)));
            if x.member@ != m {
                lemma_in_set_push(without_member(t, k, m), x, k);
                lemma_zview_push(in_set(without_member(t, k, m), k), x);
            }
        } else {
            if !(x.name@ == k && x.member@ == m) {
                lemma_in_set_push(without_member(t, k, m), x, k);
            }
        }
    }
}

/// The members of `k` among the first `n` of `s` come first among the members of `k`.
proof fn lemma_in_set_prefix(s: Seq<ZMember>, k: Seq<char>, n: int)
    requires
        0 <= n <= s.len(),
    ensures
        in_set(s.take(n), k).len() <= in_set(s, k).len(),
        in_set(s, k).take(in_set(s.take(n), k).len() as int) == in_set(s.take(n), k),
    decreases s.len(),
{
    if n == s.len() {
        assert(s.take(n) =~= s);
        assert(in_set(s, k).take(in_set(s, k).len() as int) =~= in_set(s, k));
    } else {
        let t = s.drop_last();
        assert(s.take(n) =~= t.take(n));
        lemma_in_set_prefix(t, k, n);
        lemma_in_set_push(t, s.last(), k);
        assert(s =~= t.push(s.last()));
        let a = in_set(t.take(n), k);
        if s.last().name@ == k {
            assert(in_set(t, k).push(s.last()).take(a.len() as int) =~= in_set(t, k).take(a.len() as int));
        }
    }
}

/// Removing the element at `b`, a member of `k`, removes from the set of `k`
/// the entry at its position there.
proof fn lemma_in_set_remove_at(s: Seq<ZMember>, b: int, k: Seq<char>)
    requires
        0 <= b < s.len(),
        s[b].name@ == k,
    ensures
        in_set(s.take(b), k).len() < in_set(s, k).len(),
        in_set(s, k)[in_set(s.take(b), k).len() as int] == s[b],
        in_set(s.remove(b), k) == in_set(s, k).remove(in_set(s.take(b), k).len() as int),
    decreases s.len(),
{
    let t = s.drop_last();
    let j = in_set(s.take(b), k).len() as int;
    lemma_in_set_prefix(s, k, b + 1);
    lemma_take_last(s, b);
    lemma_in_set_push(s.take(b), s[b], k);
    assert(s.take(b + 1) =~= s.take(b).push(s[b]));
    assert(in_set(s, k).take(j + 1)[j] == s[b]);
    if b == s.len() - 1 {
        assert(s.remove(b) =~= t);
        assert(s.take(b) =~= t);
        lemma_in_set_push(t, s.last(), k);
        assert(s =~= t.push(s.last()));
        assert(in_set(s, k).remove(j) =~= in_set(t, k));
    } else {
        lemma_in_set_remove_at(t, b, k);
        assert(t.take(b) =~= s.take(b));
        assert(s.remove(b) =~= t.remove(b).push(s.last()));
        assert(s =~= t.push(s.last()));
        lemma_in_set_push(t.remove(b), s.last(), k);
        lemma_in_set_push(t, s.last(), k);
        if s.last().name@ == k {
            assert(in_set(t, k).push(s.last()).remove(j) =~= in_set(t, k).remove(j).push(s.last()));
        }
    }
}

/// A member of set `k` is an element of `s` that belongs to `k`.
pub proof fn lemma_in_set_contains(s: Seq<ZMember>, k: Seq<char>, x: ZMember)
    ensures
        in_set(s, k).contains(x) <==> (s.contains(x) && x.name@ == k),
    decreases s.len(),
{
    if s.len() > 0 {
        let t = s.drop_last();
        let l = s.last();
        lemma_in_set_contains(t, k, x);
        lemma_in_set_push(t, l, k);
        assert(s =~= t.push(l));
        let it = in_set(t, k);
        if in_set(s, k).contains(x) {
            let j = choose|j: int| 0 <= j < in_set(s, k).len() && in_set(s, k)[j] == x;
            if l.name@ == k && j == it.len() {
                assert(s[s.len() - 1] == x);
            } else {
                assert(it[j] == x);
                assert(it.contains(x));
                let i = choose|i: int| 0 <= i < t.len() && t[i] == x;
                assert(s[i] == x);
            }
        }
        if s.contains(x) && x.name@ == k {
            let j = choose|j: int| 0 <= j < s.len() && s[j] == x;
            if j < s.len() - 1 {
                assert(t[j] == x);
                assert(t.contains(x));
                let i = choose|i: int| 0 <= i < it.len() && it[i] == x;
                if l.name@ == k {
                    assert(it.push(l)[i] == x);
                }
            } else {
                assert(it.push(l)[it.len() as int] == x);
            }
        }
    } else {
        assert(in_set(s, k) =~= s);
    }
}

/// Removing a member of set `k` takes one from its cardinality and leaves
/// the other sets as they were.
proof fn lemma_in_set_remove(s: Seq<ZMember>, i: int, k2: Seq<char>)
    requires
        0 <= i < s.len(),
    ensures
        s[i].name@ == k2 ==> in_set(s.remove(i), k2).len() + 1 == in_set(s, k2).len(),
        s[i].name@ != k2 ==> in_set(s.remove(i), k2) == in_set(s, k2),
    decreases s.len(),
{
    let t = s.drop_last();
    if i == s.len() - 1 {
        assert(s.remove(i) =~= t);
        lemma_in_set_push(t, s.last(), k2);
    } else {
        lemma_in_set_remove(t, i, k2);
        assert(s.remove(i) =~= t.remove(i).push(s.last()));
        lemma_in_set_push(t.remove(i), s.last(), k2);
        lemma_in_set_push(t, s.last(), k2);
    }
}

/// The volatile key-value store: keys with independent expiry, and sorted
/// sets that do not expire. Instants are milliseconds.
pub struct KvStore {
    entries: Vec<Entry>,
    members: Vec<ZMember>,
}

impl KvStore {
    pub closed spec fn entries(&self) -> Seq<Entry> {
        self.entries@
    }

    pub closed spec fn members(&self) -> Seq<ZMember> {
        self.members@
    }

    /// The value that key `k` holds at `now`.
    pub open spec fn spec_get(&self, k: Seq<char>, now: i64) -> Option<StoreValue> {
        live_value(lookup(self.entries(), k), now)
    }

    /// The members of sorted set `k`.
    pub open spec fn spec_set(&self, k: Seq<char>) -> Seq<ZMember> {
        in_set(self.members(), k)
    }

    /// Whether only key `k` differs between `self` and `other`.
    pub open spec fn same_but_key(&self, other: &KvStore, k: Seq<char>) -> bool {
        &&& forall|k2: Seq<char>| k2 != k ==> lookup(#[trigger] other.entries(), k2) == lookup(
            self.entries(),
            k2,
        )
        &&& other.members() == self.members()
    }

    /// An empty store.
    pub fn new() -> (r: KvStore)
        ensures
            r.entries().len() == 0,
            r.members().len() == 0,
            forall|k: Seq<char>, now: i64| r.spec_get(k, now) is None,
            forall|k: Seq<char>| (#[trigger] r.spec_set(k)).len() == 0,
    {
        KvStore { entries: Vec::new(), members: Vec::new() }
    }

    fn find(&self, key: &str) -> (r: Option<usize>)
        ensures
            r matches Some(i) ==> i < self.entries@.len() && Some(self.entries@[i as int]) == lookup(
                self.entries@,
                key@,
            ),
            r is None ==> lookup(self.entries@, key@) is None,
    {
        let k = key.to_owned();
        let mut i: usize = self.entries.len();
        proof {
            assert(self.entries@.take(i as int) =~= self.entries@);
        }
        while i > 0
            invariant
                i <= self.entries@.len(),
                k@ == key@,
                lookup(self.entries@, key@) == lookup(self.entries@.take(i as int), key@),
            decreases i,
        {
            proof {
                lemma_take_last(self.entries@, i - 1);
            }
            if self.entries[i - 1].key == k {
                return Some(i - 1);
            }
            i = i - 1;
        }
        proof {
            assert(self.entries@.take(0).len() == 0);
        }
        None
    }

    /// The value of `key` if it has not expired at `now` (GET).
    pub fn get(&self, key: &str, now: i64) -> (r: Option<StoreValue>)
        ensures
            r == self.spec_get(key@, now),
    {
        proof {
            assert(self.entries@.take(self.entries@.len() as int) =~= self.entries@);
        }
        match self.find(key) {
            Some(i) => {
                if self.entries[i].expires_at > now {
                    Some(self.entries[i].value.duplicate())
                } else {
                    None
                }
            },
            None => None,
        }
    }

    /// Whether `key` is there at `now` (EXISTS).
    pub fn contains(&self, key: &str, now: i64) -> (r: bool)
        ensures
            r == self.spec_get(key@, now) is Some,
    {
        proof {
            assert(self.entries@.take(self.entries@.len() as int) =~= self.entries@);
        }
        match self.find(key) {
            Some(i) => self.entries[i].expires_at > now,
            None => false,
        }
    }

    /// Removes `key` (DEL).
    pub fn del(&mut self, key: &str)
        ensures
            lookup(final(self).entries(), key@) is None,
            old(self).same_but_key(final(self), key@),
    {
        let mut out: Vec<Entry> = Vec::new();
        let k = key.to_owned();
        let mut i: usize = 0;
        while i < self.entries.len()
            invariant
                i <= self.entries@.len(),
                k@ == key@,
                out@ == without_key(self.entries@.take(i as int), key@),
            decreases self.entries@.len() - i,
        {
            proof {
                lemma_take_last(self.entries@, i as int);
            }
            if !(self.entries[i].key == k) {
                out.push(self.entries[i].duplicate());
            }
            i = i + 1;
        }
        proof {
            assert(self.entries@.take(self.entries@.len() as int) =~= self.entries@);
            let s = self.entries@;
            assert forall|k2: Seq<char>| true implies lookup(without_key(s, key@), k2) == (
                if k2 == key@ { None } else { lookup(s, k2) }) by {
                lemma_lookup_without_key(s, key@, k2);
            }
        }
        self.entries = out;
    }

    /// Sets `key` to `value` until `now + ttl` (SET with expiry).
    pub fn set_ex(&mut self, key: &str, value: StoreValue, ttl: u32, now: i64)
        ensures
            lookup(final(self).entries(), key@) matches Some(e) && e.value == value
                && e.expires_at == expiry(now, ttl),
            old(self).same_but_key(final(self), key@),
    {
        self.del(key);
        let expires_at: i64 = if now > i64::MAX - ttl as i64 {
            i64::MAX
        } else {
            now + ttl as i64
        };
        let e = Entry { key: key.to_owned(), value, expires_at };
        proof {
            let s = self.entries@;
            assert forall|k2: Seq<char>| true implies lookup(s.push(e), k2) == (
                if e.key@ == k2 { Some(e) } else { lookup(s, k2) }) by {
                lemma_lookup_push(s, e, k2);
            }
        }
        self.entries.push(e);
    }

    /// Sets `key` unless it is there at `now` (SET NX with expiry); says
    /// whether it was set.
    pub fn set_nx_ex(&mut self, key: &str, value: StoreValue, ttl: u32, now: i64) -> (r: bool)
        ensures
            r == (old(self).spec_get(key@, now) is None),
            r ==> (lookup(final(self).entries(), key@) matches Some(e) && e.value == value
                && e.expires_at == expiry(now, ttl)),
            r ==> old(self).same_but_key(final(self), key@),
            !r ==> *final(self) == *old(self),
    {
        if self.contains(key, now) {
            false
        } else {
            self.set_ex(key, value, ttl, now);
            true
        }
    }

    /// The number of members of set `key` (ZCARD).
    pub fn zcard(&self, key: &str) -> (r: usize)
        ensures
            r == self.spec_set(key@).len(),
    {
        let mut n: usize = 0;
        let k = key.to_owned();
        let mut i: usize = 0;
        while i < self.members.len()
            invariant
                i <= self.members@.len(),
                k@ == key@,
                n == in_set(self.members@.take(i as int), key@).len(),
                n <= i,
            decreases self.members@.len() - i,
        {
            proof {
                lemma_take_last(self.members@, i as int);
                lemma_in_set_push(self.members@.take(i as int), self.members@[i as int], key@);
                assert(self.members@.take(i as int).push(self.members@[i as int]) =~= self.members@.take(i + 1));
            }
            if self.members[i].name == k {
                n = n + 1;
            }
            i = i + 1;
        }
        proof {
            assert(self.members@.take(self.members@.len() as int) =~= self.members@);
        }
        n
    }

    /// The members of set `key`, in the order they were added (ZRANGE 0 -1).
    pub fn zmembers(&self, key: &str) -> (r: Vec<String>)
        ensures
            r@.len() == self.spec_set(key@).len(),
            forall|j: int| 0 <= j < r@.len() ==> r@[j] == #[trigger] self.spec_set(key@)[j].member,
    {
        let mut out: Vec<String> = Vec::new();
        let k = key.to_owned();
        let mut i: usize = 0;
        while i < self.members.len()
            invariant
                i <= self.members@.len(),
                k@ == key@,
                out@.len() == in_set(self.members@.take(i as int), key@).len(),
                forall|j: int| 0 <= j < out@.len() ==> out@[j] == #[trigger] in_set(
                    self.members@.take(i as int),
                    key@,
                )[j].member,
            decreases self.members@.len() - i,
        {
            proof {
                lemma_in_set_push(self.members@.take(i as int), self.members@[i as int], key@);
                assert(self.members@.take(i as int).push(self.members@[i as int]) =~= self.members@.take(i + 1));
            }
            if self.members[i].name == k {
                out.push(self.members[i].member.clone());
            }
            i = i + 1;
        }
        proof {
            assert(self.members@.take(self.members@.len() as int) =~= self.members@);
        }
        out
    }

    /// Adds `member` to set `key` with `score`, replacing an earlier score (ZADD).
    pub fn zadd(&mut self, key: &str, member: &str, score: i64)
        ensures
            final(self).entries() == old(self).entries(),
            forall|k2: Seq<char>| k2 != key@ ==> #[trigger] final(self).spec_set(k2) == old(self).spec_set(k2),
            final(self).spec_set(key@).len() <= old(self).spec_set(key@).len() + 1,
            final(self).spec_set(key@).last().member@ == member@,
            final(self).spec_set(key@).last().score == score,
            final(self).spec_set(key@).len() > 0,
            forall|x: ZMember| #[trigger] final(self).spec_set(key@).contains(x) ==>
                old(self).spec_set(key@).contains(x) || (x.member@ == member@ && x.score == score),
            zview(final(self).spec_set(key@)) == drop_member(zview(old(self).spec_set(key@)), member@).push(
                (member@, score),
            ),
    {
        let mut out: Vec<ZMember> = Vec::new();
        let k = key.to_owned();
        let m = member.to_owned();
        let mut i: usize = 0;
        while i < self.members.len()
            invariant
                i <= self.members@.len(),
                k@ == key@,
                m@ == member@,
                out@ == without_member(self.members@.take(i as int), key@, member@),
            decreases self.members@.len() - i,
        {
            proof {
                lemma_take_last(self.members@, i as int);
            }
            if !(self.members[i].name == k && self.members[i].member == m) {
                out.push(self.members[i].duplicate());
            }
            i = i + 1;
        }
        let x = ZMember { name: key.to_owned(), member: member.to_owned(), score };
        proof {
            let s = self.members@;
            assert(s.take(s.len() as int) =~= s);
            let w = without_member(s, key@, member@);
            assert forall|k2: Seq<char>| true implies in_set(w.push(x), k2) == (if x.name@ == k2 {
                in_set(w, k2).push(x) } else { in_set(w, k2) }) && (k2 != key@ ==> in_set(w, k2) == in_set(s, k2)) by {
                lemma_in_set_push(w, x, k2);
                lemma_in_set_without_member(s, key@, member@, k2);
            }
            lemma_in_set_without_member(s, key@, member@, key@);
            lemma_zview_without_member(s, key@, member@);
            lemma_in_set_push(w, x, key@);
            lemma_zview_push(in_set(w, key@), x);
            assert forall|y: ZMember| #[trigger] in_set(w.push(x), key@).contains(y) implies
                in_set(s, key@).contains(y) || (y.member@ == member@ && y.score == score) by {
                let j = choose|j: int| 0 <= j < in_set(w.push(x), key@).len() && in_set(w.push(x), key@)[j] == y;
                if j < in_set(w, key@).len() {
                    assert(in_set(w, key@).contains(y));
                }
            }
        }
        out.push(x);
        self.members = out;
    }

    /// Removes the member of set `key` with the lowest score, the first added
    /// among equal scores, and returns it (ZREMRANGEBYRANK 0 0).
    pub fn zpop_min(&mut self, key: &str) -> (r: Option<String>)
        ensures
            final(self).entries() == old(self).entries(),
            forall|k2: Seq<char>| k2 != key@ ==> #[trigger] final(self).spec_set(k2) == old(self).spec_set(k2),
            old(self).spec_set(key@).len() == 0 ==> r is None && *final(self) == *old(self),
            forall|x: ZMember| #[trigger] final(self).spec_set(key@).contains(x) ==> old(self).spec_set(key@).contains(x),
            old(self).spec_set(key@).len() > 0 ==> {
                &&& final(self).spec_set(key@).len() + 1 == old(self).spec_set(key@).len()
                &&& r is Some
                &&& exists|j: int| {
                    &&& is_first_lowest(zview(old(self).spec_set(key@)), j)
                    &&& r->0@ == zview(old(self).spec_set(key@))[j].0
                    &&& zview(final(self).spec_set(key@)) == zview(old(self).spec_set(key@)).remove(j)
                    &&& #[trigger] old(self).spec_set(key@)[j].member == r->0
                    &&& forall|l: int| 0 <= l < old(self).spec_set(key@).len()
                        ==> old(self).spec_set(key@)[j].score <= #[trigger] old(self).spec_set(key@)[l].score
                }
            },
    {
        let ghost s = self.members@;
        let k = key.to_owned();
        let mut best: Option<usize> = None;
        let ghost mut bj: int = 0;
        let mut i: usize = 0;
        while i < self.members.len()
            invariant
                s == self.members@,
                i <= s.len(),
                k@ == key@,
                best is None ==> in_set(s.take(i as int), key@).len() == 0,
                best matches Some(b) ==> {
                    let v = in_set(s.take(i as int), key@);
                    &&& b < i
                    &&& s[b as int].name@ == key@
                    &&& bj == in_set(s.take(b as int), key@).len()
                    &&& 0 <= bj < v.len()
                    &&& v[bj] == s[b as int]
                    &&& forall|l: int| 0 <= l < v.len() ==> s[b as int].score <= #[trigger] v[l].score
                    &&& forall|l: int| 0 <= l < bj ==> s[b as int].score < #[trigger] v[l].score
                },
            decreases s.len() - i,
        {
            proof {
                lemma_in_set_push(s.take(i as int), s[i as int], key@);
                assert(s.take(i as int).push(s[i as int]) =~= s.take(i + 1));
            }
            if self.members[i].name == k {
                let better = match best {
                    Some(b) => self.members[i].score < self.members[b].score,
                    None => true,
                };
                if better {
                    proof {
                        bj = in_set(s.take(i as int), key@).len() as int;
                        let n = in_set(s.take(i + 1), key@).len();
                        assert(in_set(s.take(i + 1), key@)[n - 1] == s[i as int]);
                        assert forall|l: int| 0 <= l < bj implies s[i as int].score < #[trigger] in_set(
                            s.take(i + 1),
                            key@,
                        )[l].score by {
                            assert(in_set(s.take(i + 1), key@)[l] == in_set(s.take(i as int), key@)[l]);
                        }
                        assert forall|l: int| 0 <= l < n implies s[i as int].score <= #[trigger] in_set(
                            s.take(i + 1),
                            key@,
                        )[l].score by {
                            if l < n - 1 {
                                assert(in_set(s.take(i + 1), key@)[l] == in_set(s.take(i as int), key@)[l]);
                            }
                        }
                    }
                    best = Some(i);
                } else {
                    proof {
                        let b = best->0;
                        let v = in_set(s.take(i as int), key@);
                        let n = in_set(s.take(i + 1), key@).len();
                        assert forall|l: int| 0 <= l < n implies s[b as int].score <= #[trigger] in_set(
                            s.take(i + 1),
                            key@,
                        )[l].score by {
                            if l < n - 1 {
                                assert(in_set(s.take(i + 1), key@)[l] == v[l]);
                            }
                        }
                        assert forall|l: int| 0 <= l < bj implies s[b as int].score < #[trigger] in_set(
                            s.take(i + 1),
                            key@,
                        )[l].score by {
                            assert(in_set(s.take(i + 1), key@)[l] == v[l]);
                        }
                        assert(in_set(s.take(i + 1), key@)[bj] == v[bj]);
                    }
                }
            }
            i = i + 1;
        }
        proof {
            assert(s.take(s.len() as int) =~= s);
        }
        match best {
            Some(b) => {
                proof {
                    assert forall|k2: Seq<char>| true implies (s[b as int].name@ == k2 ==> in_set(
                        s.remove(b as int), k2).len() + 1 == in_set(s, k2).len()) && (s[b as int].name@
                        != k2 ==> in_set(s.remove(b as int), k2) == in_set(s, k2)) by {
                        lemma_in_set_remove(s, b as int, k2);
                    }
                    assert forall|x: ZMember| #[trigger] in_set(s.remove(b as int), key@).contains(x)
                        implies in_set(s, key@).contains(x) by {
                        lemma_in_set_contains(s.remove(b as int), key@, x);
                        lemma_in_set_contains(s, key@, x);
                        let j = choose|j: int| 0 <= j < s.remove(b as int).len() && s.remove(b as int)[j] == x;
                        if j < b {
                            assert(s[j] == x);
                        } else {
                            assert(s[j + 1] == x);
                        }
                    }
                    lemma_in_set_remove_at(s, b as int, key@);
                    let v = in_set(s, key@);
                    assert(zview(v.remove(bj)) =~= zview(v).remove(bj));
                    assert(is_first_lowest(zview(v), bj));
                }
                let m = self.members.remove(b);
                Some(m.member)
            },
            None => None,
        }
    }

    /// Removes set `key` as a whole (DEL of a sorted set).
    pub fn zdel(&mut self, key: &str)
        ensures
            final(self).entries() == old(self).entries(),
            final(self).spec_set(key@).len() == 0,
            forall|k2: Seq<char>| k2 != key@ ==> #[trigger] final(self).spec_set(k2) == old(self).spec_set(k2),
    {
        let mut out: Vec<ZMember> = Vec::new();
        let k = key.to_owned();
        let mut i: usize = 0;
        while i < self.members.len()
            invariant
                i <= self.members@.len(),
                k@ == key@,
                out@ == without_set(self.members@.take(i as int), key@),
            decreases self.members@.len() - i,
        {
            proof {
                lemma_take_last(self.members@, i as int);
            }
            if !(self.members[i].name == k) {
                out.push(self.members[i].duplicate());
            }
            i = i + 1;
        }
        proof {
            let s = self.members@;
            assert(s.take(s.len() as int) =~= s);
            assert forall|k2: Seq<char>| true implies in_set(without_set(s, key@), k2) == (if k2 == key@ {
                Seq::<ZMember>::empty() } else { in_set(s, k2) }) by {
                lemma_in_set_without_set(s, key@, k2);
            }
        }
        self.members = out;
    }
}

/// The value of `prefix:id` at `now` (GET).
pub fn try_get(store: &KvStore, prefix: &str, id: &str, now: i64) -> (r: Option<StoreValue>)
    ensures
        r == store.spec_get(spec_key(prefix@, id@), now),
{
    let key = join_key(prefix, id);
    store.get(key.as_str(), now)
}

/// Stores `value` under `prefix:id` until `now + ttl` (SET with expiry).
pub fn insert_id(store: &mut KvStore, prefix: &str, id: &str, value: StoreValue, ttl: u32, now: i64)
    ensures
        lookup(final(store).entries(), spec_key(prefix@, id@)) matches Some(e) && e.value == value
            && e.expires_at == expiry(now, ttl),
        old(store).same_but_key(final(store), spec_key(prefix@, id@)),
{
    let key = join_key(prefix, id);
    store.set_ex(key.as_str(), value, ttl, now);
}

/// Deletes `prefix:id` (DEL).
pub fn remove_id(store: &mut KvStore, prefix: &str, id: &str)
    ensures
        lookup(final(store).entries(), spec_key(prefix@, id@)) is None,
        old(store).same_but_key(final(store), spec_key(prefix@, id@)),
{
    let key = join_key(prefix, id);
    store.del(key.as_str());
}

/// Tries to take the lock `prefix:id` for `ttl` (SET NX with expiry); says
/// whether it was held already, in which case nothing changes.
pub fn is_temporarily_locked(store: &mut KvStore, prefix: &str, id: &str, ttl: u32, now: i64) -> (r: bool)
    ensures
        r == (old(store).spec_get(spec_key(prefix@, id@), now) is Some),
        r ==> *final(store) == *old(store),
        !r ==> (lookup(final(store).entries(), spec_key(prefix@, id@)) matches Some(e) && e.value
            == StoreValue::Marker && e.expires_at == expiry(now, ttl)),
        !r ==> old(store).same_but_key(final(store), spec_key(prefix@, id@)),
{
    let key = join_key(prefix, id);
    !store.set_nx_ex(key.as_str(), StoreValue::Marker, ttl, now)
}

} // verus!
