//! The visitor demonstration: an operation over a fixed set of buildings
//! is defined outside the buildings themselves; each building dispatches
//! the visitor to the method meant for it.

use vstd::prelude::*;

verus! {

pub trait Visitor {
    spec fn spec_visit_plant(&self) -> Seq<char>;

    spec fn spec_visit_shop(&self) -> Seq<char>;

    spec fn spec_visit_warehouse(&self) -> Seq<char>;

    fn visit_plant(&self) -> (r: String)
        ensures
            r@ == self.spec_visit_plant(),
    ;

    fn visit_shop(&self) -> (r: String)
        ensures
            r@ == self.spec_visit_shop(),
    ;

    fn visit_warehouse(&self) -> (r: String)
        ensures
            r@ == self.spec_visit_warehouse(),
    ;
}

pub struct FirstVisitor {}

impl Visitor for FirstVisitor {
    open spec fn spec_visit_plant(&self) -> Seq<char> {
        "First visited plant"@
    }

    open spec fn spec_visit_shop(&self) -> Seq<char> {
        "First visited shop"@
    }

    open spec fn spec_visit_warehouse(&self) -> Seq<char> {
        "First visited warehouse"@
    }

    fn visit_plant(&self) -> (r: String) {
        "First visited plant".to_owned()
    }

    fn visit_shop(&self) -> (r: String) {
        "First visited shop".to_owned()
    }

    fn visit_warehouse(&self) -> (r: String) {
        "First visited warehouse".to_owned()
    }
}

pub struct SecondVisitor {}

impl Visitor for SecondVisitor {
    open spec fn spec_visit_plant(&self) -> Seq<char> {
        "Second visited plant"@
    }

    open spec fn spec_visit_shop(&self) -> Seq<char> {
        "Second visited shop"@
    }

    open spec fn spec_visit_warehouse(&self) -> Seq<char> {
        "Second visited warehouse"@
    }

    fn visit_plant(&self) -> (r: String) {
        "Second visited plant".to_owned()
    }

    fn visit_shop(&self) -> (r: String) {
        "Second visited shop".to_owned()
    }

    fn visit_warehouse(&self) -> (r: String) {
        "Second visited warehouse".to_owned()
    }
}

/// The closed set of buildings a visitor can be taken through.
#[derive(Clone, Copy, PartialEq, Eq, Structural, Debug)]
pub enum Building {
    Plant,
    Shop,
    Warehouse,
}

impl Building {
    /// Which of the visitor's methods this building dispatches to.
    pub open spec fn spec_accept<V: Visitor>(&self, visitor: &V) -> Seq<char> {
        match self {
            Building::Plant => visitor.spec_visit_plant(),
            Building::Shop => visitor.spec_visit_shop(),
            Building::Warehouse => visitor.spec_visit_warehouse(),
        }
    }

    pub fn accept<V: Visitor>(&self, visitor: &V) -> (r: String)
        ensures
            r@ == self.spec_accept(visitor),
    {
        match self {
            Building::Plant => visitor.visit_plant(),
            Building::Shop => visitor.visit_shop(),
            Building::Warehouse => visitor.visit_warehouse(),
        }
    }
}

} // verus!
