use std::collections::HashMap;
use vstd::prelude::*;
use vstd::std_specs::iter::IteratorSpec;

use crate::user::User;

verus! {

broadcast use vstd::std_specs::hash::group_hash_axioms;

/// The registry: at most one record per id, last writer wins.
pub struct Store {
    users: HashMap<u64, User>,
}

impl View for Store {
    type V = Map<u64, User>;

    closed spec fn view(&self) -> Map<u64, User> {
        self.users@
    }
}

impl Store {
    pub fn new() -> (s: Store)
        ensures
            s@ == Map::<u64, User>::empty(),
    {
        Store { users: HashMap::new() }
    }

    /// Stores `user` under `id`, replacing whatever was there.
    pub fn insert_or_replace(&mut self, id: u64, user: User)
        ensures
            final(self)@ == old(self)@.insert(id, user),
    {
        self.users.insert(id, user);
    }

    /// Removes the record under `id`, if there is one.
    pub fn remove(&mut self, id: u64)
        ensures
            final(self)@ == old(self)@.remove(id),
    {
        self.users.remove(&id);
    }

    /// A copy of the record under `id`.
    pub fn get(&self, id: u64) -> (r: Option<User>)
        ensures
            r == (if self@.contains_key(id) {
                Some(self@[id])
            } else {
                None::<User>
            }),
    {
        match self.users.get(&id) {
            Some(u) => Some(u.duplicate()),
            None => None,
        }
    }

    pub fn contains(&self, id: u64) -> (r: bool)
        ensures
            r == self@.contains_key(id),
    {
        self.users.contains_key(&id)
    }

    /// Every stored record with its id, each once, in no particular order.
    pub fn get_all(&self) -> (r: Vec<(u64, User)>)
        ensures
            r@.len() == self@.len(),
            forall|i: int|
                0 <= i < r@.len() ==> self@.contains_key(#[trigger] r@[i].0) && self@[r@[i].0]
                    == r@[i].1,
            forall|id: u64| #[trigger]
                self@.contains_key(id) ==> exists|i: int|
                    0 <= i < r@.len() && r@[i] == (id, self@[id]),
    {
        let ghost pairs = self.users.iter().remaining();
        let mut out: Vec<(u64, User)> = Vec::new();
        for (k, v) in it: self.users.iter()
            invariant
                out@.len() == it.index(),
                it.seq() == pairs,
                forall|j: int|
                    0 <= j < it.index() ==> #[trigger] out@[j] == (*pairs[j].0, *pairs[j].1),
        {
            out.push((*k, v.duplicate()));
        }
        proof {
            assert forall|id: u64| #[trigger] self@.contains_key(id) implies exists|i: int|
                0 <= i < out@.len() && out@[i] == (id, self@[id]) by {
                assert(pairs.contains((&id, &self.users@[id])));
                let i = choose|i: int| 0 <= i < pairs.len() && pairs[i] == (&id, &self.users@[id]);
                assert(out@[i] == (id, self@[id]));
            }
        }
        out
    }

    pub fn len(&self) -> (r: usize)
        ensures
            r == self@.len(),
    {
        self.users.len()
    }
}

} // verus!
