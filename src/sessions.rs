use vstd::prelude::*;

use crate::error::ErrorCode;

verus! {

/// Key-value store from session token to the identity of the user it was issued to.
pub struct SessionStore {
    tokens: Vec<String>,
    owners: Vec<i64>,
    live: Ghost<Map<Seq<char>, i64>>,
}

impl View for SessionStore {
    type V = Map<Seq<char>, i64>;

    closed spec fn view(&self) -> Map<Seq<char>, i64> {
        self.live@
    }
}

impl SessionStore {
    /// Tokens are unique, each maps to the identity beside it, and the map holds nothing else.
    pub closed spec fn wf(&self) -> bool {
        &&& self.tokens@.len() == self.owners@.len()
        &&& forall|i: int, j: int|
            0 <= i < j < self.tokens@.len() ==> #[trigger] self.tokens@[i]@ != #[trigger] self.tokens@[j]@
        &&& forall|i: int|
            0 <= i < self.tokens@.len() ==> {
                &&& self.live@.contains_key(#[trigger] self.tokens@[i]@)
                &&& self.live@[self.tokens@[i]@] == self.owners@[i]
            }
        &&& forall|k: Seq<char>|
            #[trigger] self.live@.contains_key(k) ==> exists|i: int|
                0 <= i < self.tokens@.len() && #[trigger] self.tokens@[i]@ == k
    }

    pub fn new() -> (r: Self)
        ensures
            r.wf(),
            r@ == Map::<Seq<char>, i64>::empty(),
    {
        SessionStore { tokens: Vec::new(), owners: Vec::new(), live: Ghost(Map::empty()) }
    }

    /// Position of `token` among the stored tokens, if it is there.
    fn position(&self, token: &String) -> (r: Option<usize>)
        requires
            self.wf(),
        ensures
            match r {
                Some(i) => i < self.tokens@.len() && self.tokens@[i as int]@ == token@,
                None => !self@.contains_key(token@),
            },
    {
        let mut i: usize = 0;
        while i < self.tokens.len()
            invariant
                self.wf(),
                i <= self.tokens@.len(),
                forall|j: int| 0 <= j < i ==> #[trigger] self.tokens@[j]@ != token@,
            decreases self.tokens@.len() - i,
        {
            if self.tokens[i] == *token {
                return Some(i);
            }
            i = i + 1;
        }
        None
    }

    /// The identity that `token` maps to, or `None` when the token is absent.
    pub fn get(&self, token: &String) -> (r: Option<i64>)
        requires
            self.wf(),
        ensures
            r == (if self@.contains_key(token@) { Some(self@[token@]) } else { None::<i64> }),
    {
        match self.position(token) {
            Some(i) => Some(self.owners[i]),
            None => None,
        }
    }

    /// Maps `token` to `owner`. A live token is never handed to another identity:
    /// saving it again with the same identity changes nothing, with another one fails.
    pub fn save(&mut self, token: &String, owner: i64) -> (r: Result<(), ErrorCode>)
        requires
            old(self).wf(),
        ensures
            final(self).wf(),
            r is Ok <==> (!old(self)@.contains_key(token@) || old(self)@[token@] == owner),
            r is Ok ==> final(self)@ == old(self)@.insert(token@, owner),
            r is Err ==> r == Err::<(), ErrorCode>(ErrorCode::DataStoreError) && final(self)@
                == old(self)@,
    {
        match self.position(token) {
            Some(i) => {
                if self.owners[i] == owner {
                    proof {
                        assert(self@.insert(token@, owner) =~= self@);
                    }
                    Ok(())
                } else {
                    Err(ErrorCode::DataStoreError)
                }
            },
            None => {
                let ghost before = *self;
                self.tokens.push(token.clone());
                self.owners.push(owner);
                self.live = Ghost(self.live@.insert(token@, owner));
                proof {
                    let n = before.tokens@.len() as int;
                    assert(self.tokens@[n]@ == token@);
                    assert forall|i: int| 0 <= i < n implies #[trigger] self.tokens@[i]
                        == before.tokens@[i] by {}
                    assert forall|k: Seq<char>| #[trigger] self.live@.contains_key(k) implies exists|
                        i: int,
                    | 0 <= i < self.tokens@.len() && #[trigger] self.tokens@[i]@ == k by {
                        if k != token@ {
                            assert(before.live@.contains_key(k));
                            let i = choose|i: int|
                                0 <= i < before.tokens@.len() && #[trigger] before.tokens@[i]@ == k;
                            assert(self.tokens@[i] == before.tokens@[i]);
                        } else {
                            assert(self.tokens@[n]@ == k);
                        }
                    }
                }
                Ok(())
            },
        }
    }

    /// Removes the mapping of `token`; removing an absent token is no error.
    pub fn del(&mut self, token: &String)
        requires
            old(self).wf(),
        ensures
            final(self).wf(),
            final(self)@ == old(self)@.remove(token@),
    {
        match self.position(token) {
            Some(i) => {
                let ghost before = *self;
                self.tokens.remove(i);
                self.owners.remove(i);
                self.live = Ghost(self.live@.remove(token@));
                proof {
                    let ii = i as int;
                    assert forall|j: int| 0 <= j < self.tokens@.len() implies #[trigger] self.tokens@[j]
                        == before.tokens@[if j < ii { j } else { j + 1 }] && self.owners@[j]
                        == before.owners@[if j < ii { j } else { j + 1 }] by {}
                    assert forall|j: int| 0 <= j < self.tokens@.len() implies #[trigger] self.tokens@[j]@
                        != token@ by {
                        let jj = if j < ii { j } else { j + 1 };
                        assert(before.tokens@[jj]@ != before.tokens@[ii]@);
                    }
                    assert forall|a: int, b: int| 0 <= a < b < self.tokens@.len() implies #[trigger] self.tokens@[a]@
                        != #[trigger] self.tokens@[b]@ by {
                        let aa = if a < ii { a } else { a + 1 };
                        let bb = if b < ii { b } else { b + 1 };
                        assert(before.tokens@[aa]@ != before.tokens@[bb]@);
                    }
                    assert forall|k: Seq<char>| #[trigger] self.live@.contains_key(k) implies exists|
                        j: int,
                    | 0 <= j < self.tokens@.len() && #[trigger] self.tokens@[j]@ == k by {
                        let w = choose|w: int|
                            0 <= w < before.tokens@.len() && #[trigger] before.tokens@[w]@ == k;
                        assert(w != ii);
                        let j = if w < ii { w } else { w - 1 };
                        assert(self.tokens@[j] == before.tokens@[w]);
                    }
                }
            },
            None => {
                proof {
                    assert(self@.remove(token@) =~= self@);
                }
            },
        }
    }
}

} // verus!
