//! The template-method demonstration on documents: opening fixes the
//! skeleton — extract the path's extension, compare it against what the
//! concrete document type allows — while each type only names its
//! extension.

use vstd::prelude::*;
use vstd::string::StrSliceExecFns;

verus! {

/// The position of the dot that starts the extension: the last `'.'` of
/// the final path component, found before any `'/'` when scanning from
/// the end.
pub open spec fn last_dot(path: Seq<char>) -> Option<int>
    decreases path.len(),
{
    if path.len() == 0 {
        None
    } else if path.last() == '.' {
        Some(path.len() - 1)
    } else if path.last() == '/' {
        None
    } else {
        last_dot(path.drop_last())
    }
}

/// The extension of a path: the characters after the last dot of its
/// final component.  A path whose final component has no dot has none.
pub open spec fn extension_of(path: Seq<char>) -> Option<Seq<char>> {
    match last_dot(path) {
        Some(i) => Some(path.subrange(i + 1, path.len() as int)),
        None => None,
    }
}

/// Extract the extension of a path, exactly as [`extension_of`] defines
/// it.
pub fn path_extension(path: &str) -> (r: Option<&str>)
    ensures
        match r {
            Some(e) => extension_of(path@) == Some(e@),
            None => extension_of(path@) is None,
        },
{
    let n = path.unicode_len();
    let mut i = n;
    proof {
        assert(path@.take(n as int) =~= path@);
    }
    while i > 0
        invariant
            i <= n,
            n == path@.len(),
            last_dot(path@) == last_dot(path@.take(i as int)),
        decreases i,
    {
        let c = path.get_char(i - 1);
        proof {
            assert(path@.take(i as int).drop_last() =~= path@.take(i - 1));
            assert(path@.take(i as int).last() == path@[i - 1]);
        }
        if c == '.' {
            proof {
                assert(last_dot(path@) == Some(i - 1));
            }
            let ext = path.substring_char(i, n);
            proof {
                assert(ext@ =~= path@.subrange(i as int, path@.len() as int));
            }
            return Some(ext);
        }
        if c == '/' {
            return None;
        }
        i = i - 1;
    }
    proof {
        assert(path@.take(0) =~= Seq::<char>::empty());
    }
    None
}

pub struct DocumentEntity {}

pub trait Document {
    /// The one extension this document type opens.
    spec fn spec_allow_extension(&self) -> Seq<char>;

    fn allow_extension(&self) -> (r: &'static str)
        ensures
            r@ == self.spec_allow_extension(),
    ;

    /// The template method: a document opens exactly when the path's
    /// extension is the allowed one.  A path without an extension is
    /// outside the contract — the skeleton insists on one.
    fn open(&self, path: &str) -> (r: Option<DocumentEntity>)
        requires
            extension_of(path@) is Some,
        ensures
            r is Some <==> extension_of(path@) == Some(self.spec_allow_extension()),
    {
        match path_extension(path) {
            Some(ext) => {
                if ext.to_owned() == self.allow_extension().to_owned() {
                    Some(DocumentEntity {})
                } else {
                    None
                }
            },
            None => None,
        }
    }
}

pub struct DocumentWord {}

impl DocumentWord {
    pub fn new() -> (d: DocumentWord) {
        DocumentWord {}
    }
}

impl Document for DocumentWord {
    open spec fn spec_allow_extension(&self) -> Seq<char> {
        "doc"@
    }

    fn allow_extension(&self) -> (r: &'static str) {
        "doc"
    }
}

pub struct DocumentPDF {}

impl DocumentPDF {
    pub fn new() -> (d: DocumentPDF) {
        DocumentPDF {}
    }
}

impl Document for DocumentPDF {
    open spec fn spec_allow_extension(&self) -> Seq<char> {
        "pdf"@
    }

    fn allow_extension(&self) -> (r: &'static str) {
        "pdf"
    }
}

} // verus!
