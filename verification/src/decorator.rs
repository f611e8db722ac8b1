//! The decorator demonstration: a coffee can be wrapped, at run time, in
//! decorators that adjust its cost and its description.
//!
//! Prices are kept in hundredths of a currency unit, so the milk
//! surcharge of ten percent is exact integer arithmetic.

use vstd::prelude::*;
use vstd::string::StringExecFns;

verus! {

pub trait Coffe {
    /// The price in hundredths of a currency unit.
    spec fn spec_cost(&self) -> nat;

    spec fn spec_description(&self) -> Seq<char>;

    fn cost(&self) -> (r: u64)
        requires
            self.spec_cost() <= u64::MAX,
        ensures
            r == self.spec_cost(),
    ;

    fn description(&self) -> (r: String)
        ensures
            r@ == self.spec_description(),
    ;
}

pub struct SimpleCoffe {}

impl Coffe for SimpleCoffe {
    open spec fn spec_cost(&self) -> nat {
        10000
    }

    open spec fn spec_description(&self) -> Seq<char> {
        "Coffe"@
    }

    fn cost(&self) -> (r: u64) {
        10000
    }

    fn description(&self) -> (r: String) {
        "Coffe".to_owned()
    }
}

/// Adds milk: ten percent on the price, a note on the description.
pub struct MilkDecoratorCoffe<C: Coffe> {
    pub coffe: C,
}

impl<C: Coffe> MilkDecoratorCoffe<C> {
    pub fn new(coffe: C) -> (d: MilkDecoratorCoffe<C>)
        ensures
            d.coffe == coffe,
    {
        MilkDecoratorCoffe { coffe }
    }
}

impl<C: Coffe> Coffe for MilkDecoratorCoffe<C> {
    open spec fn spec_cost(&self) -> nat {
        (self.coffe.spec_cost() * 11 / 10) as nat
    }

    open spec fn spec_description(&self) -> Seq<char> {
        self.coffe.spec_description() + " with milk"@
    }

    fn cost(&self) -> (r: u64) {
        proof {
            assert(self.coffe.spec_cost() <= self.coffe.spec_cost() * 11 / 10)
                by (nonlinear_arith);
        }
        let base = self.coffe.cost();
        let with_milk = (base as u128) * 11 / 10;
        proof {
            assert(with_milk <= u64::MAX);
        }
        with_milk as u64
    }

    fn description(&self) -> (r: String) {
        self.coffe.description().concat(" with milk")
    }
}

} // verus!
