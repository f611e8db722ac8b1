//! The composite demonstration: simple cargo and containers of cargo are
//! weighed through one interface, and a container's weight is the sum of
//! whatever it holds — nested containers included.

use vstd::prelude::*;

verus! {

broadcast use vstd::std_specs::vec::axiom_vec_index_decreases;

pub struct Wood {}

impl Wood {
    pub fn new() -> (w: Wood) {
        Wood {}
    }
}

pub struct Car {}

impl Car {
    pub fn new() -> (c: Car) {
        Car {}
    }
}

/// One piece of cargo of any shape: the closed set of implementers the
/// demonstration composes.
pub enum CargoItem {
    Wood(Wood),
    Car(Car),
    Sea(SeaContainer),
    Tank(Tanker),
}

pub struct SeaContainer {
    pub items: Vec<CargoItem>,
}

pub struct Tanker {
    pub items: Vec<CargoItem>,
}

/// The weight of one piece of cargo, containers weighed recursively.
pub open spec fn item_weight(c: CargoItem) -> nat
    decreases c,
{
    match c {
        CargoItem::Wood(_) => 320,
        CargoItem::Car(_) => 2200,
        CargoItem::Sea(s) => items_weight(s.items, s.items.len() as int),
        CargoItem::Tank(t) => items_weight(t.items, t.items.len() as int),
    }
}

/// The summed weight of the first `n` items (`n` at most the length).
pub open spec fn items_weight(items: Vec<CargoItem>, n: int) -> nat
    decreases items, n,
{
    if n <= 0 || n > items.len() {
        0
    } else {
        items_weight(items, n - 1) + item_weight(items[n - 1])
    }
}

/// A partial sum only reads the items in front of it, so appending one
/// more item leaves it unchanged.
proof fn lemma_items_weight_push(items: Vec<CargoItem>, pushed: Vec<CargoItem>, n: int)
    requires
        0 <= n <= items.len(),
        pushed@ == items@.push(pushed[items.len() as int]),
    ensures
        items_weight(pushed, n) == items_weight(items, n),
    decreases n,
{
    if n > 0 {
        lemma_items_weight_push(items, pushed, n - 1);
        assert(pushed[n - 1] == items[n - 1]);
    }
}

/// Every partial sum is bounded by the sum over more items.
proof fn lemma_items_weight_monotonic(items: Vec<CargoItem>, n: int, m: int)
    requires
        n <= m <= items.len(),
    ensures
        items_weight(items, n) <= items_weight(items, m),
    decreases m - n,
{
    if n < m {
        lemma_items_weight_monotonic(items, n, m - 1);
    }
}

pub trait Component {
    /// The true (unbounded) weight of this piece of cargo.
    spec fn spec_weight(&self) -> nat;

    fn weight(&self) -> (r: u32)
        requires
            self.spec_weight() <= u32::MAX,
        ensures
            r == self.spec_weight(),
    ;
}

/// A composite owns further cargo; adding a piece adds its weight.
pub trait CompositeComponent: Component {
    fn add_cargo(&mut self, cargo: CargoItem)
        ensures
            final(self).spec_weight() == old(self).spec_weight() + item_weight(cargo),
    ;
}

impl Component for Wood {
    open spec fn spec_weight(&self) -> nat {
        320
    }

    fn weight(&self) -> (r: u32) {
        320
    }
}

impl Component for Car {
    open spec fn spec_weight(&self) -> nat {
        2200
    }

    fn weight(&self) -> (r: u32) {
        2200
    }
}

impl Component for CargoItem {
    open spec fn spec_weight(&self) -> nat {
        item_weight(*self)
    }

    fn weight(&self) -> (r: u32)
        decreases *self,
    {
        match self {
            CargoItem::Wood(w) => w.weight(),
            CargoItem::Car(c) => c.weight(),
            CargoItem::Sea(s) => s.weight(),
            CargoItem::Tank(t) => t.weight(),
        }
    }
}

impl SeaContainer {
    pub fn new() -> (c: SeaContainer)
        ensures
            c.spec_weight() == 0,
            c.items@.len() == 0,
    {
        SeaContainer { items: Vec::new() }
    }
}

impl Component for SeaContainer {
    open spec fn spec_weight(&self) -> nat {
        items_weight(self.items, self.items.len() as int)
    }

    fn weight(&self) -> (r: u32)
        decreases *self,
    {
        weigh_items(&self.items)
    }
}

impl CompositeComponent for SeaContainer {
    fn add_cargo(&mut self, cargo: CargoItem) {
        self.items.push(cargo);
        proof {
            lemma_items_weight_push(
                old(self).items,
                self.items,
                old(self).items.len() as int,
            );
        }
    }
}

impl Tanker {
    pub fn new() -> (t: Tanker)
        ensures
            t.spec_weight() == 0,
            t.items@.len() == 0,
    {
        Tanker { items: Vec::new() }
    }
}

impl Component for Tanker {
    open spec fn spec_weight(&self) -> nat {
        items_weight(self.items, self.items.len() as int)
    }

    fn weight(&self) -> (r: u32)
        decreases *self,
    {
        weigh_items(&self.items)
    }
}

impl CompositeComponent for Tanker {
    fn add_cargo(&mut self, cargo: CargoItem) {
        self.items.push(cargo);
        proof {
            lemma_items_weight_push(
                old(self).items,
                self.items,
                old(self).items.len() as int,
            );
        }
    }
}

/// Sum the weights of a list of cargo.
fn weigh_items(items: &Vec<CargoItem>) -> (r: u32)
    requires
        items_weight(*items, items.len() as int) <= u32::MAX,
    ensures
        r == items_weight(*items, items.len() as int),
    decreases *items,
{
    let mut total: u32 = 0;
    let mut i: usize = 0;
    while i < items.len()
        invariant
            i <= items.len(),
            items_weight(*items, items.len() as int) <= u32::MAX,
            total == items_weight(*items, i as int),
        decreases items.len() - i,
    {
        proof {
            lemma_items_weight_monotonic(*items, i + 1, items.len() as int);
        }
        let w = items[i].weight();
        total = total + w;
        i = i + 1;
    }
    total
}

} // verus!
