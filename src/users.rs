use vstd::prelude::*;
use crate::models::copy_opt_string;

verus! {

/// The durable attributes of an identity.
pub struct UserRecord {
    pub email: String,
    pub password_hash: Option<String>,
    pub locked: bool,
}

/// The latest record written for `email`.
pub open spec fn user_of(s: Seq<UserRecord>, email: Seq<char>) -> Option<UserRecord>
    decreases s.len(),
{
    if s.len() == 0 {
        None
    } else if s.last().email@ == email {
        Some(s.last())
    } else {
        user_of(s.drop_last(), email)
    }
}

proof fn lemma_user_push(s: Seq<UserRecord>, u: UserRecord, email: Seq<char>)
    ensures
        user_of(s.push(u), email) == if u.email@ == email { Some(u) } else { user_of(s, email) },
{
    assert(s.push(u).drop_last() =~= s);
}

/// The durable user table, as a log of writes in which the latest record of
/// an address is its row; a write to an address without a row makes one.
pub struct UserStore {
    records: Vec<UserRecord>,
}

impl UserStore {
    pub closed spec fn records(&self) -> Seq<UserRecord> {
        self.records@
    }

    /// The row of `email`.
    pub open spec fn spec_user(&self, email: Seq<char>) -> Option<UserRecord> {
        user_of(self.records(), email)
    }

    /// Whether `email` has a row that is locked.
    pub open spec fn spec_locked(&self, email: Seq<char>) -> bool {
        self.spec_user(email) matches Some(u) && u.locked
    }

    /// Whether only the row of `email` differs between `self` and `other`.
    pub open spec fn same_but(&self, other: &UserStore, email: Seq<char>) -> bool {
        forall|e: Seq<char>| e != email ==> #[trigger] other.spec_user(e) == self.spec_user(e)
    }

    /// An empty table.
    pub fn new() -> (r: UserStore)
        ensures
            forall|e: Seq<char>| #[trigger] r.spec_user(e) is None,
    {
        UserStore { records: Vec::new() }
    }

    fn write(&mut self, email: &str, password_hash: Option<String>, locked: bool)
        ensures
            final(self).spec_user(email@) matches Some(u) && u.password_hash == password_hash
                && u.locked == locked,
            old(self).same_but(final(self), email@),
    {
        let u = UserRecord { email: email.to_owned(), password_hash, locked };
        proof {
            assert forall|e: Seq<char>| true implies user_of(self.records@.push(u), e) == (
                if u.email@ == e { Some(u) } else { user_of(self.records@, e) }) by {
                lemma_user_push(self.records@, u, e);
            }
        }
        self.records.push(u);
    }

    /// The password hash and lock flag of `email`.
    pub fn get_user(&self, email: &str) -> (r: Option<(Option<String>, bool)>)
        ensures
            match self.spec_user(email@) {
                Some(u) => r == Some((u.password_hash, u.locked)),
                None => r is None,
            },
    {
        let k = email.to_owned();
        let mut i: usize = self.records.len();
        proof {
            assert(self.records@.take(i as int) =~= self.records@);
        }
        while i > 0
            invariant
                i <= self.records@.len(),
                k@ == email@,
                user_of(self.records@, email@) == user_of(self.records@.take(i as int), email@),
            decreases i,
        {
            proof {
                assert(self.records@.take(i as int).drop_last() =~= self.records@.take(i - 1));
            }
            if self.records[i - 1].email == k {
                let u = &self.records[i - 1];
                return Some((copy_opt_string(&u.password_hash), u.locked));
            }
            i = i - 1;
        }
        None
    }

    /// Whether `email` has a locked row.
    pub fn check_lock(&self, email: &str) -> (r: bool)
        ensures
            r == self.spec_locked(email@),
    {
        match self.get_user(email) {
            Some((_, locked)) => locked,
            None => false,
        }
    }

    /// Writes a new, unlocked identity.
    pub fn insert_user(&mut self, email: &str, password_hash: Option<String>)
        ensures
            final(self).spec_user(email@) matches Some(u) && u.password_hash == password_hash
                && !u.locked,
            old(self).same_but(final(self), email@),
    {
        self.write(email, password_hash, false);
    }

    /// Sets the lock flag of `email`, keeping its password hash.
    pub fn update_lock(&mut self, email: &str, lock: bool)
        ensures
            final(self).spec_user(email@) matches Some(u) && u.locked == lock
                && u.password_hash == (match old(self).spec_user(email@) {
                    Some(o) => o.password_hash,
                    None => None,
                }),
            old(self).same_but(final(self), email@),
    {
        let hash = match self.get_user(email) {
            Some((h, _)) => h,
            None => None,
        };
        self.write(email, hash, lock);
    }

    /// Clears the lock flag of `email` and writes its new password hash.
    pub fn unlock_account(&mut self, email: &str, password_hash: &str)
        ensures
            final(self).spec_user(email@) matches Some(u) && !u.locked
                && (u.password_hash matches Some(h) && h@ == password_hash@),
            old(self).same_but(final(self), email@),
    {
        self.write(email, Some(password_hash.to_owned()), false);
    }
}

} // verus!
