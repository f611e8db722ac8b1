//! The adapter demonstration: a text document does not know how to
//! serialize itself, so an adapter gives it the byte-oriented interface
//! that images already have.

use vstd::prelude::*;
use vstd::slice::slice_to_vec;
use vstd::string::StrSliceExecFns;
use vstd::utf8::encode_utf8;

verus! {

pub trait Serialize {
    /// The exact bytes `serialize` produces.
    spec fn spec_serialize(&self) -> Seq<u8>;

    fn serialize(&self) -> (r: Vec<u8>)
        ensures
            r@ == self.spec_serialize(),
    ;
}

pub struct Document {
    pub data: String,
}

impl Document {
    pub fn new(data: &str) -> (d: Document)
        ensures
            d.data@ == data@,
    {
        Document { data: data.to_owned() }
    }
}

pub struct Image {
    pub data: Vec<u8>,
}

impl Image {
    pub fn new(data: &[u8]) -> (im: Image)
        ensures
            im.data@ == data@,
    {
        Image { data: slice_to_vec(data) }
    }
}

impl Serialize for Image {
    open spec fn spec_serialize(&self) -> Seq<u8> {
        self.data@
    }

    fn serialize(&self) -> (r: Vec<u8>) {
        let r = self.data.clone();
        proof {
            assert(r@ =~= self.data@);
        }
        r
    }
}

/// Adapts a [`Document`] to the [`Serialize`] interface by encoding its
/// text.
pub struct DocumentAdapter {
    pub document: Document,
}

impl DocumentAdapter {
    pub fn new(document: Document) -> (a: DocumentAdapter)
        ensures
            a.document == document,
    {
        DocumentAdapter { document }
    }
}

impl Serialize for DocumentAdapter {
    open spec fn spec_serialize(&self) -> Seq<u8> {
        encode_utf8(self.document.data@)
    }

    fn serialize(&self) -> (r: Vec<u8>) {
        self.document.data.as_str().as_bytes_vec()
    }
}

} // verus!
