//! The factory-method demonstration: each logistics branch decides for
//! itself which transport it creates.

use vstd::prelude::*;

verus! {

pub trait Transport {
    /// The line `deliver` reports.
    spec fn spec_deliver(&self) -> Seq<char>;

    fn deliver(&self) -> (r: String)
        ensures
            r@ == self.spec_deliver(),
    ;
}

pub struct Car {}

impl Car {
    pub fn new() -> (c: Car) {
        Car {}
    }
}

impl Transport for Car {
    open spec fn spec_deliver(&self) -> Seq<char> {
        "Delivery by car"@
    }

    fn deliver(&self) -> (r: String) {
        "Delivery by car".to_owned()
    }
}

pub struct Ship {}

impl Ship {
    pub fn new() -> (s: Ship) {
        Ship {}
    }
}

impl Transport for Ship {
    open spec fn spec_deliver(&self) -> Seq<char> {
        "Delivery by ship"@
    }

    fn deliver(&self) -> (r: String) {
        "Delivery by ship".to_owned()
    }
}

pub trait Logistics {
    type T: Transport;

    /// The factory method each branch overrides.
    fn make_transport(&self) -> Self::T;
}

pub struct RoadLogistics {}

impl RoadLogistics {
    pub fn new() -> (l: RoadLogistics) {
        RoadLogistics {}
    }
}

impl Logistics for RoadLogistics {
    type T = Car;

    fn make_transport(&self) -> Car {
        Car::new()
    }
}

pub struct SeaLogistics {}

impl SeaLogistics {
    pub fn new() -> (l: SeaLogistics) {
        SeaLogistics {}
    }
}

impl Logistics for SeaLogistics {
    type T = Ship;

    fn make_transport(&self) -> Ship {
        Ship::new()
    }
}

} // verus!
