//! The facade demonstration: one simple entry point in front of a video
//! framework.  The framework behind the facade is a stand-in; the facade
//! only fixes the interface callers see, so the machinery behind it can
//! be exchanged freely.

use vstd::prelude::*;

verus! {

pub struct FacadeVideoFramework {}

impl FacadeVideoFramework {
    pub fn new() -> (f: FacadeVideoFramework) {
        FacadeVideoFramework {}
    }

    /// Report what the framework behind the facade would be asked to do.
    pub fn convert(&self, filename: &str, codec: &str) -> (r: (String, String))
        ensures
            r.0@ == filename@,
            r.1@ == codec@,
    {
        (filename.to_owned(), codec.to_owned())
    }
}

} // verus!
