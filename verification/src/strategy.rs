//! The strategy demonstration: a data set delegates sorting to an
//! exchangeable strategy.  Every strategy must truly sort — same elements,
//! ascending order — and each one reports which algorithm ran.

use vstd::multiset::Multiset;
use vstd::prelude::*;
use vstd::seq_lib::group_to_multiset_ensures;

verus! {

pub open spec fn sorted(s: Seq<i32>) -> bool {
    forall|i: int, j: int| 0 <= i <= j < s.len() ==> s[i] <= s[j]
}

/// In-place selection sort: repeatedly move the least remaining element
/// over into the output.
fn sort_values(data: &mut Vec<i32>)
    ensures
        sorted(final(data)@),
        final(data)@.to_multiset() == old(data)@.to_multiset(),
{
    broadcast use group_to_multiset_ensures;

    let ghost orig = data@;
    let mut out: Vec<i32> = Vec::new();
    while data.len() > 0
        invariant
            sorted(out@),
            forall|a: int, b: int|
                0 <= a < out@.len() && 0 <= b < data@.len() ==> out@[a] <= data@[b],
            out@.to_multiset().add(data@.to_multiset()) == orig.to_multiset(),
        decreases data@.len(),
    {
        let mut m: usize = 0;
        let mut k: usize = 1;
        while k < data.len()
            invariant
                data@.len() > 0,
                m < data@.len(),
                k <= data@.len(),
                forall|t: int| 0 <= t < k ==> data@[m as int] <= data@[t],
            decreases data@.len() - k,
        {
            if data[k] < data[m] {
                m = k;
            }
            k = k + 1;
        }
        let ghost pre = data@;
        let ghost out_pre = out@;
        let v = data.remove(m);
        out.push(v);
        proof {
            broadcast use vstd::multiset::group_multiset_axioms;

            vstd::seq_lib::to_multiset_remove::<i32>(pre, m as int);
            vstd::seq_lib::to_multiset_contains::<i32>(pre, v);
            vstd::seq_lib::to_multiset_build::<i32>(out_pre, v);
            assert(pre.contains(v));
            assert(pre.to_multiset().count(v) > 0);
            assert(pre.to_multiset() =~= data@.to_multiset().insert(v));
            assert(out@.to_multiset().add(data@.to_multiset()) =~= orig.to_multiset());
        }
    }
    proof {
        broadcast use vstd::multiset::group_multiset_axioms;

        assert(data@ =~= Seq::<i32>::empty());
        vstd::seq_lib::to_multiset_len::<i32>(data@);
        assert(data@.to_multiset() =~= Multiset::<i32>::empty());
        assert(out@.to_multiset() =~= orig.to_multiset());
    }
    *data = out;
}

pub trait Sorting {
    /// The note this strategy reports when it runs.
    spec fn spec_note(&self) -> Seq<char>;

    fn sort(&self, data: &mut Vec<i32>) -> (note: String)
        ensures
            sorted(final(data)@),
            final(data)@.to_multiset() == old(data)@.to_multiset(),
            note@ == self.spec_note(),
    ;
}

pub struct FastSorting {}

impl FastSorting {
    pub fn new() -> (s: FastSorting) {
        FastSorting {}
    }
}

impl Sorting for FastSorting {
    open spec fn spec_note(&self) -> Seq<char> {
        "Used fast sorting"@
    }

    fn sort(&self, data: &mut Vec<i32>) -> (note: String) {
        sort_values(data);
        "Used fast sorting".to_owned()
    }
}

pub struct RegularSorting {}

impl RegularSorting {
    pub fn new() -> (s: RegularSorting) {
        RegularSorting {}
    }
}

impl Sorting for RegularSorting {
    open spec fn spec_note(&self) -> Seq<char> {
        "Used regular sorting, but less memory is used"@
    }

    fn sort(&self, data: &mut Vec<i32>) -> (note: String) {
        sort_values(data);
        "Used regular sorting, but less memory is used".to_owned()
    }
}

/// The context: data plus the strategy currently chosen for it.
pub struct DataSet<S: Sorting> {
    pub data: Vec<i32>,
    pub sorting: S,
}

impl<S: Sorting> DataSet<S> {
    pub fn new(data: Vec<i32>, sorting: S) -> (d: DataSet<S>)
        ensures
            d.data == data,
            d.sorting == sorting,
    {
        DataSet { data, sorting }
    }

    /// Sort the data with the current strategy; returns the strategy's
    /// note.
    pub fn sort(&mut self) -> (note: String)
        ensures
            sorted(final(self).data@),
            final(self).data@.to_multiset() == old(self).data@.to_multiset(),
            final(self).sorting == old(self).sorting,
            note@ == old(self).sorting.spec_note(),
    {
        self.sorting.sort(&mut self.data)
    }

    /// Exchange the strategy; the data is untouched.
    pub fn set_sorting(&mut self, sorting: S)
        ensures
            final(self).data == old(self).data,
            final(self).sorting == sorting,
    {
        self.sorting = sorting;
    }
}

} // verus!
