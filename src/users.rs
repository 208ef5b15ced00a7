use vstd::prelude::*;

use crate::error::ErrorCode;

verus! {

/// The answer of the user store to a username and password: the user's identity
/// when the username is known and the password is the one stored for it.
pub open spec fn credential_check(
    users: Map<Seq<char>, (Seq<char>, i64)>,
    username: Seq<char>,
    password: Seq<char>,
) -> Result<i64, ErrorCode> {
    if users.contains_key(username) && users[username].0 == password {
        Ok(users[username].1)
    } else {
        Err(ErrorCode::NotAuthenticated)
    }
}

/// User records, keyed by username. The user at position `i` has identity `i + 1`.
pub struct UserStore {
    names: Vec<String>,
    passwords: Vec<String>,
    rows: Ghost<Map<Seq<char>, (Seq<char>, i64)>>,
}

impl View for UserStore {
    /// Username to (password, identity).
    type V = Map<Seq<char>, (Seq<char>, i64)>;

    closed spec fn view(&self) -> Map<Seq<char>, (Seq<char>, i64)> {
        self.rows@
    }
}

impl UserStore {
    pub closed spec fn wf(&self) -> bool {
        &&& self.names@.len() == self.passwords@.len()
        &&& self.names@.len() <= i64::MAX
        &&& forall|i: int| 0 <= i < self.names@.len() ==> #[trigger] self.names@[i]@.len() > 0
        &&& forall|i: int, j: int|
            0 <= i < j < self.names@.len() ==> #[trigger] self.names@[i]@ != #[trigger] self.names@[j]@
        &&& forall|i: int|
            0 <= i < self.names@.len() ==> {
                &&& self.rows@.contains_key(#[trigger] self.names@[i]@)
                &&& self.rows@[self.names@[i]@] == (self.passwords@[i]@, (i + 1) as i64)
            }
        &&& forall|k: Seq<char>|
            #[trigger] self.rows@.contains_key(k) ==> exists|i: int|
                0 <= i < self.names@.len() && #[trigger] self.names@[i]@ == k
    }

    /// How many users the store holds.
    pub closed spec fn count(&self) -> nat {
        self.names@.len()
    }

    pub fn new() -> (r: Self)
        ensures
            r.wf(),
            r@ == Map::<Seq<char>, (Seq<char>, i64)>::empty(),
            r.count() == 0,
    {
        UserStore { names: Vec::new(), passwords: Vec::new(), rows: Ghost(Map::empty()) }
    }

    /// No user has an empty username.
    pub proof fn lemma_no_empty_username(&self)
        requires
            self.wf(),
        ensures
            !self@.contains_key(Seq::<char>::empty()),
    {
        if self@.contains_key(Seq::<char>::empty()) {
            let i = choose|i: int|
                0 <= i < self.names@.len() && #[trigger] self.names@[i]@ == Seq::<char>::empty();
            assert(self.names@[i]@.len() > 0);
        }
    }

    fn position(&self, username: &String) -> (r: Option<usize>)
        requires
            self.wf(),
        ensures
            match r {
                Some(i) => i < self.names@.len() && self.names@[i as int]@ == username@,
                None => !self@.contains_key(username@),
            },
    {
        let mut i: usize = 0;
        while i < self.names.len()
            invariant
                self.wf(),
                i <= self.names@.len(),
                forall|j: int| 0 <= j < i ==> #[trigger] self.names@[j]@ != username@,
            decreases self.names@.len() - i,
        {
            if self.names[i] == *username {
                return Some(i);
            }
            i = i + 1;
        }
        None
    }

    /// Checks a username and password against the stored records.
    pub fn match_password(&self, username: &String, password: &String) -> (r: Result<i64, ErrorCode>)
        requires
            self.wf(),
        ensures
            r == credential_check(self@, username@, password@),
    {
        match self.position(username) {
            Some(i) => {
                if self.passwords[i] == *password {
                    assert(i < self.names.len());
                    Ok((i as i64) + 1)
                } else {
                    Err(ErrorCode::NotAuthenticated)
                }
            },
            None => Err(ErrorCode::NotAuthenticated),
        }
    }

    /// Adds a user under the next free identity. The store refuses an empty or
    /// already known username, and a new user once identities are exhausted.
    pub fn add_user(&mut self, username: &String, password: &String) -> (r: Result<(), ErrorCode>)
        requires
            old(self).wf(),
        ensures
            final(self).wf(),
            r is Ok <==> (username@.len() > 0 && !old(self)@.contains_key(username@)
                && old(self).count() < i64::MAX),
            r is Ok ==> final(self)@ == old(self)@.insert(
                username@,
                (password@, (old(self).count() + 1) as i64),
            ) && final(self).count() == old(self).count() + 1,
            r is Err ==> r == Err::<(), ErrorCode>(ErrorCode::DataStoreError) && final(self)@
                == old(self)@ && final(self).count() == old(self).count(),
    {
        if username.as_str().is_empty() {
            return Err(ErrorCode::DataStoreError);
        }
        if self.position(username).is_some() {
            return Err(ErrorCode::DataStoreError);
        }
        if self.names.len() as u64 >= i64::MAX as u64 {
            return Err(ErrorCode::DataStoreError);
        }
        let ghost before = *self;
        let ghost id = (before.names@.len() + 1) as i64;
        self.names.push(username.clone());
        self.passwords.push(password.clone());
        self.rows = Ghost(self.rows@.insert(username@, (password@, id)));
        proof {
            let n = before.names@.len() as int;
            assert(self.names@[n]@ == username@);
            assert forall|i: int| 0 <= i < n implies #[trigger] self.names@[i] == before.names@[i]
                && self.passwords@[i] == before.passwords@[i] by {}
            assert forall|k: Seq<char>| #[trigger] self.rows@.contains_key(k) implies exists|i: int|
                0 <= i < self.names@.len() && #[trigger] self.names@[i]@ == k by {
                if k != username@ {
                    let i = choose|i: int|
                        0 <= i < before.names@.len() && #[trigger] before.names@[i]@ == k;
                    assert(self.names@[i] == before.names@[i]);
                } else {
                    assert(self.names@[n]@ == k);
                }
            }
        }
        Ok(())
    }
}

} // verus!
