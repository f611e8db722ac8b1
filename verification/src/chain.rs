//! The chain-of-responsibility demonstration: a request enters at the
//! front of a chain of handlers and travels onward until a handler keeps
//! it.

use vstd::prelude::*;

verus! {

pub trait Handler {
    /// The lines this handler (and whatever follows it) reports, in order.
    spec fn spec_execute(&self) -> Seq<Seq<char>>;

    fn execute(&self) -> (r: Vec<String>)
        ensures
            r.deep_view() == self.spec_execute(),
    ;
}

/// The entry point of the chain: does nothing itself, only forwards.
pub struct Processing<H: Handler> {
    pub handler: Option<Box<H>>,
}

impl<H: Handler> Processing<H> {
    pub fn new() -> (p: Processing<H>)
        ensures
            p.handler is None,
    {
        Processing { handler: None }
    }

    pub fn set_next(&mut self, handler: Box<H>)
        ensures
            final(self).handler == Some(handler),
    {
        self.handler = Some(handler);
    }
}

impl<H: Handler> Handler for Processing<H> {
    open spec fn spec_execute(&self) -> Seq<Seq<char>> {
        match self.handler {
            Some(h) => h.spec_execute(),
            None => Seq::<Seq<char>>::empty(),
        }
    }

    fn execute(&self) -> (r: Vec<String>) {
        if let Some(handler) = &self.handler {
            handler.execute()
        } else {
            let r: Vec<String> = Vec::new();
            proof {
                assert(r.deep_view() =~= Seq::<Seq<char>>::empty());
            }
            r
        }
    }
}

/// Validates the document and, when the check passes, lets the request
/// travel on.
pub struct Validator<H: Handler> {
    pub handler: Option<Box<H>>,
}

impl<H: Handler> Validator<H> {
    pub fn new() -> (v: Validator<H>)
        ensures
            v.handler is None,
    {
        Validator { handler: None }
    }

    pub fn set_next(&mut self, handler: Box<H>)
        ensures
            final(self).handler == Some(handler),
    {
        self.handler = Some(handler);
    }
}

impl<H: Handler> Handler for Validator<H> {
    open spec fn spec_execute(&self) -> Seq<Seq<char>> {
        seq!["Validate document"@] + match self.handler {
            Some(h) => h.spec_execute(),
            None => Seq::<Seq<char>>::empty(),
        }
    }

    fn execute(&self) -> (r: Vec<String>) {
        // were the check to fail, the chain would stop here
        let is_validate = true;
        let mut r: Vec<String> = Vec::new();
        r.push("Validate document".to_owned());
        if is_validate {
            if let Some(handler) = &self.handler {
                let mut rest = handler.execute();
                r.append(&mut rest);
            }
        }
        proof {
            assert(r.deep_view() =~= self.spec_execute());
        }
        r
    }
}

/// The terminal handler: keeps the document and forwards nothing.
pub struct Keeper {}

impl Keeper {
    pub fn new() -> (k: Keeper) {
        Keeper {}
    }
}

impl Handler for Keeper {
    open spec fn spec_execute(&self) -> Seq<Seq<char>> {
        seq!["Save document"@]
    }

    fn execute(&self) -> (r: Vec<String>) {
        let mut r: Vec<String> = Vec::new();
        r.push("Save document".to_owned());
        proof {
            assert(r.deep_view() =~= self.spec_execute());
        }
        r
    }
}

} // verus!
