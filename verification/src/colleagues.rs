//! The iterator demonstration: sequential access to a roster of users
//! without exposing how the roster stores them.

use vstd::prelude::*;

verus! {

#[derive(Clone)]
pub struct User {
    pub id: usize,
    pub name: String,
}

impl User {
    pub fn new(id: usize, name: &str) -> (u: User)
        ensures
            u.id == id,
            u.name@ == name@,
    {
        User { id, name: name.to_owned() }
    }
}

pub struct Colleagues {
    users: Vec<User>,
}

impl Colleagues {
    pub closed spec fn spec_users(&self) -> Seq<User> {
        self.users@
    }

    pub fn new() -> (c: Colleagues)
        ensures
            c.spec_users() =~= Seq::<User>::empty(),
    {
        Colleagues { users: Vec::new() }
    }

    pub fn add_user(&mut self, user: User)
        ensures
            final(self).spec_users() == old(self).spec_users().push(user),
    {
        self.users.push(user);
    }

    /// A fresh traversal over the current roster, front to back.
    pub fn iterator(&self) -> (it: ColleaguesIter<'_>)
        ensures
            it.pos == 0,
            it.users@ == self.spec_users(),
    {
        ColleaguesIter { pos: 0, users: &self.users }
    }
}

/// A cursor into a roster: `next` hands the users out in order and then
/// reports the end with `None`.
pub struct ColleaguesIter<'a> {
    pub pos: usize,
    pub users: &'a Vec<User>,
}

impl<'a> ColleaguesIter<'a> {
    pub fn next(&mut self) -> (r: Option<&'a User>)
        ensures
            final(self).users == old(self).users,
            old(self).pos < old(self).users@.len() ==> {
                &&& final(self).pos == old(self).pos + 1
                &&& r is Some
                &&& r->0 == old(self).users@[old(self).pos as int]
            },
            old(self).pos >= old(self).users@.len() ==> {
                &&& r is None
                &&& final(self).pos == old(self).pos
            },
    {
        if self.pos >= self.users.len() {
            return None;
        }
        self.pos = self.pos + 1;
        Some(&self.users[self.pos - 1])
    }
}

} // verus!
