//! The flyweight demonstration: the heavy, repeated part of a tree — its
//! color, texture name and texture bytes — is kept once in a factory cache
//! and shared by reference among all trees that use it.

use std::rc::Rc;

use vstd::prelude::*;
use vstd::slice::slice_to_vec;

verus! {

#[derive(Clone, Copy, PartialEq, Eq, Structural, Debug)]
pub enum Color {
    Red,
    Green,
    Yellow,
}

/// The shared (intrinsic) state of a tree: everything that does not
/// change from one planted tree to the next.
pub struct TreeExtendData {
    pub color: Color,
    pub texture_name: String,
    pub texture: Vec<u8>,
}

/// A planted tree: its own position plus a shared handle to the heavy
/// data.
pub struct Tree {
    pub x: i64,
    pub y: i64,
    pub data: Rc<TreeExtendData>,
}

/// Whether a cache entry serves the key `(color, name)`.
pub open spec fn key_matches(d: TreeExtendData, color: Color, name: Seq<char>) -> bool {
    d.color == color && d.texture_name@ == name
}

/// Whether two entries serve the same key.
pub open spec fn same_key(a: TreeExtendData, b: TreeExtendData) -> bool {
    a.color == b.color && a.texture_name@ == b.texture_name@
}

/// Relies on `Rc::clone`: the clone is another handle to the same
/// allocation, hence to the same value.
#[verifier::external_body]
fn share_data(data: &Rc<TreeExtendData>) -> (r: Rc<TreeExtendData>)
    ensures
        r == data,
{
    data.clone()
}

pub struct Forest {
    pub trees: Vec<Tree>,
}

impl Forest {
    pub fn new() -> (f: Forest)
        ensures
            f.trees@.len() == 0,
    {
        Forest { trees: Vec::new() }
    }

    pub fn add(&mut self, tree: Tree)
        ensures
            final(self).trees@ == old(self).trees@.push(tree),
    {
        self.trees.push(tree);
    }
}

/// Creates trees, caching the heavy data by its `(color, texture name)`
/// key: at most one entry per key ever exists.
pub struct TreeFactory {
    cache: Vec<Rc<TreeExtendData>>,
}

impl TreeFactory {
    /// The cached data values, in insertion order.
    pub closed spec fn entries(&self) -> Seq<TreeExtendData> {
        self.cache@.map_values(|d: Rc<TreeExtendData>| *d)
    }

    /// No two cache entries serve the same key.
    pub open spec fn wf(&self) -> bool {
        forall|i: int, j: int|
            0 <= i < j < self.entries().len() ==> !same_key(
                #[trigger] self.entries()[i],
                #[trigger] self.entries()[j],
            )
    }

    pub fn new() -> (f: TreeFactory)
        ensures
            f.wf(),
            f.entries() =~= Seq::<TreeExtendData>::empty(),
    {
        TreeFactory { cache: Vec::new() }
    }

    /// Make a tree at `(x, y)`.  If the key is already cached, the cached
    /// data — texture included, whatever bytes were handed in this time —
    /// is shared; otherwise the new data enters the cache.
    pub fn make(&mut self, color: Color, texture_name: &str, texture: &[u8], x: i64, y: i64) -> (t:
        Tree)
        requires
            old(self).wf(),
        ensures
            final(self).wf(),
            t.x == x && t.y == y,
            key_matches(*t.data, color, texture_name@),
            (exists|i: int|
                0 <= i < old(self).entries().len() && key_matches(
                    #[trigger] old(self).entries()[i],
                    color,
                    texture_name@,
                )) ==> {
                &&& final(self).entries() == old(self).entries()
                &&& forall|i: int|
                    0 <= i < old(self).entries().len() && key_matches(
                        #[trigger] old(self).entries()[i],
                        color,
                        texture_name@,
                    ) ==> *t.data == old(self).entries()[i]
            },
            !(exists|i: int|
                0 <= i < old(self).entries().len() && key_matches(
                    #[trigger] old(self).entries()[i],
                    color,
                    texture_name@,
                )) ==> {
                &&& final(self).entries() == old(self).entries().push(*t.data)
                &&& (*t.data).texture@ == texture@
            },
    {
        let name = texture_name.to_owned();
        let mut i: usize = 0;
        while i < self.cache.len()
            invariant
                *self == *old(self),
                old(self).wf(),
                i <= self.cache@.len(),
                name@ == texture_name@,
                forall|k: int|
                    0 <= k < i ==> !key_matches(#[trigger] self.entries()[k], color, texture_name@),
            decreases self.cache@.len() - i,
        {
            let hit = {
                let entry = &self.cache[i];
                entry.color == color && entry.texture_name == name
            };
            if hit {
                let data = share_data(&self.cache[i]);
                proof {
                    assert(key_matches(self.entries()[i as int], color, texture_name@));
                    assert(*data == self.entries()[i as int]);
                    assert forall|j: int|
                        0 <= j < self.entries().len() && key_matches(
                            #[trigger] self.entries()[j],
                            color,
                            texture_name@,
                        ) implies *data == self.entries()[j] by {
                        if j < i {
                            assert(same_key(self.entries()[j], self.entries()[i as int]));
                        } else if i < j {
                            assert(same_key(self.entries()[i as int], self.entries()[j]));
                        }
                    }
                }
                return Tree { x, y, data };
            }
            i = i + 1;
        }
        let data = Rc::new(
            TreeExtendData { color, texture_name: name, texture: slice_to_vec(texture) },
        );
        let shared = share_data(&data);
        self.cache.push(data);
        proof {
            assert(self.entries() =~= old(self).entries().push(*shared));
            let n = old(self).entries().len() as int;
            assert(key_matches(self.entries()[n], color, texture_name@));
            assert forall|a: int, b: int|
                0 <= a < b < self.entries().len() implies !same_key(
                #[trigger] self.entries()[a],
                #[trigger] self.entries()[b],
            ) by {
                if b == n {
                    assert(!key_matches(old(self).entries()[a], color, texture_name@));
                }
            }
        }
        Tree { x, y, data: shared }
    }
}

} // verus!
