use vstd::prelude::*;

verus! {

/// One registered user, keyed by `id`.
#[derive(Debug, PartialEq, Eq)]
pub struct User {
    pub id: u64,
    pub name: String,
    pub email: String,
    pub password: String,
}

impl User {
    pub fn new(id: u64, name: String, email: String, password: String) -> (r: User)
        ensures
            r.id == id,
            r.name == name,
            r.email == email,
            r.password == password,
    {
        User { id, name, email, password }
    }

    /// A field-for-field copy.
    pub fn duplicate(&self) -> (r: User)
        ensures
            r == *self,
    {
        User {
            id: self.id,
            name: self.name.clone(),
            email: self.email.clone(),
            password: self.password.clone(),
        }
    }

    /// The same record stored under another key.
    pub open spec fn spec_with_id(self, id: u64) -> User {
        User { id: id, name: self.name, email: self.email, password: self.password }
    }

    pub fn with_id(self, id: u64) -> (r: User)
        ensures
            r == self.spec_with_id(id),
    {
        User { id, name: self.name, email: self.email, password: self.password }
    }
}

} // verus!
