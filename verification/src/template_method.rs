//! The template-method demonstration: `run` fixes the skeleton of a test
//! session, while each system overrides the preparation and teardown steps.

use vstd::prelude::*;

verus! {

pub trait TestingSystem {
    /// The line `prepare` reports.
    spec fn spec_prepare(&self) -> Seq<char>;

    /// The line `finish` reports.
    spec fn spec_finish(&self) -> Seq<char>;

    fn prepare(&self) -> (r: String)
        ensures
            r@ == self.spec_prepare(),
    ;

    fn finish(&self) -> (r: String)
        ensures
            r@ == self.spec_finish(),
    ;

    /// The template method: the invariant skeleton around the overridable
    /// steps.
    fn run(&self) -> (r: Vec<String>)
        ensures
            r.deep_view() == seq![self.spec_prepare(), "Run tests"@, self.spec_finish()],
    {
        let mut r: Vec<String> = Vec::new();
        r.push(self.prepare());
        r.push("Run tests".to_owned());
        r.push(self.finish());
        proof {
            assert(r.deep_view() =~= seq![
                self.spec_prepare(),
                "Run tests"@,
                self.spec_finish(),
            ]);
        }
        r
    }
}

pub struct TestingSystemUbuntu {}

impl TestingSystemUbuntu {
    pub fn new() -> (t: TestingSystemUbuntu) {
        TestingSystemUbuntu {}
    }
}

impl TestingSystem for TestingSystemUbuntu {
    open spec fn spec_prepare(&self) -> Seq<char> {
        "Download ubuntu docker image"@
    }

    open spec fn spec_finish(&self) -> Seq<char> {
        "Remome ubuntu docker image"@
    }

    fn prepare(&self) -> (r: String) {
        "Download ubuntu docker image".to_owned()
    }

    fn finish(&self) -> (r: String) {
        "Remome ubuntu docker image".to_owned()
    }
}

pub struct TestingSystemDebian {}

impl TestingSystemDebian {
    pub fn new() -> (t: TestingSystemDebian) {
        TestingSystemDebian {}
    }
}

impl TestingSystem for TestingSystemDebian {
    open spec fn spec_prepare(&self) -> Seq<char> {
        "Download debian docker image"@
    }

    open spec fn spec_finish(&self) -> Seq<char> {
        "Remome debian docker image"@
    }

    fn prepare(&self) -> (r: String) {
        "Download debian docker image".to_owned()
    }

    fn finish(&self) -> (r: String) {
        "Remome debian docker image".to_owned()
    }
}

} // verus!
