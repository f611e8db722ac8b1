//! The proxy demonstration: a stand-in wraps a storage service and frames
//! every call with its own work.

use vstd::prelude::*;

verus! {

pub trait Storage {
    /// The lines `save` reports, in order.
    spec fn spec_save(&self) -> Seq<Seq<char>>;

    /// The lines `remove` reports, in order.
    spec fn spec_remove(&self) -> Seq<Seq<char>>;

    fn save(&self) -> (r: Vec<String>)
        ensures
            r.deep_view() == self.spec_save(),
    ;

    fn remove(&self) -> (r: Vec<String>)
        ensures
            r.deep_view() == self.spec_remove(),
    ;
}

pub struct Database {}

impl Database {
    pub fn new() -> (d: Database) {
        Database {}
    }
}

impl Storage for Database {
    open spec fn spec_save(&self) -> Seq<Seq<char>> {
        seq!["save data"@]
    }

    open spec fn spec_remove(&self) -> Seq<Seq<char>> {
        seq!["remove data"@]
    }

    fn save(&self) -> (r: Vec<String>) {
        let mut r: Vec<String> = Vec::new();
        r.push("save data".to_owned());
        proof {
            assert(r.deep_view() =~= self.spec_save());
        }
        r
    }

    fn remove(&self) -> (r: Vec<String>) {
        let mut r: Vec<String> = Vec::new();
        r.push("remove data".to_owned());
        proof {
            assert(r.deep_view() =~= self.spec_remove());
        }
        r
    }
}

/// Intercepts every call to the wrapped service, doing its own work before
/// and after.
pub struct DatabaseProxy<S: Storage> {
    pub service: S,
}

impl<S: Storage> DatabaseProxy<S> {
    pub fn new(service: S) -> (p: DatabaseProxy<S>)
        ensures
            p.service == service,
    {
        DatabaseProxy { service }
    }
}

impl<S: Storage> Storage for DatabaseProxy<S> {
    open spec fn spec_save(&self) -> Seq<Seq<char>> {
        seq!["Do before"@] + self.service.spec_save() + seq!["Do after"@]
    }

    open spec fn spec_remove(&self) -> Seq<Seq<char>> {
        seq!["Do before"@] + self.service.spec_remove() + seq!["Do after"@]
    }

    fn save(&self) -> (r: Vec<String>) {
        let mut r: Vec<String> = Vec::new();
        r.push("Do before".to_owned());
        let mut inner = self.service.save();
        r.append(&mut inner);
        r.push("Do after".to_owned());
        proof {
            assert(r.deep_view() =~= self.spec_save());
        }
        r
    }

    fn remove(&self) -> (r: Vec<String>) {
        let mut r: Vec<String> = Vec::new();
        r.push("Do before".to_owned());
        let mut inner = self.service.remove();
        r.append(&mut inner);
        r.push("Do after".to_owned());
        proof {
            assert(r.deep_view() =~= self.spec_remove());
        }
        r
    }
}

} // verus!
