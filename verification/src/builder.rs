//! The builder demonstration: a car is assembled step by step, and only a
//! configuration with both an engine and a transmission builds.

use vstd::prelude::*;

verus! {

#[derive(Clone, Copy, PartialEq, Eq, Structural, Debug)]
pub enum TransmissionKind {
    Auto,
    Manual,
}

#[derive(Clone, Copy, PartialEq, Eq, Structural, Debug)]
pub enum EngineKind {
    Gasoline,
    Diesel,
}

#[derive(Clone, Copy, PartialEq, Eq, Structural, Debug)]
pub enum NavigationKind {
    Gps,
    Glonas,
}

pub struct Car {
    pub transmission: TransmissionKind,
    pub engine: EngineKind,
    pub navigation: Option<NavigationKind>,
}

pub struct CarBuilder {
    pub transmission: Option<TransmissionKind>,
    pub engine: Option<EngineKind>,
    pub navigation: Option<NavigationKind>,
}

impl CarBuilder {
    pub fn new() -> (b: CarBuilder)
        ensures
            b.transmission is None,
            b.engine is None,
            b.navigation is None,
    {
        CarBuilder { transmission: None, engine: None, navigation: None }
    }

    /// Only the navigation is optional: the build succeeds exactly when an
    /// engine and a transmission have both been chosen.
    pub fn build(self) -> (r: Option<Car>)
        ensures
            r is Some <==> self.engine is Some && self.transmission is Some,
            r is Some ==> {
                &&& r->0.transmission == self.transmission->0
                &&& r->0.engine == self.engine->0
                &&& r->0.navigation == self.navigation
            },
    {
        if self.engine.is_some() && self.transmission.is_some() {
            return Some(
                Car {
                    transmission: self.transmission.unwrap(),
                    engine: self.engine.unwrap(),
                    navigation: self.navigation,
                },
            );
        }
        None
    }

    pub fn transmission(self, transmission: TransmissionKind) -> (b: CarBuilder)
        ensures
            b.transmission == Some(transmission),
            b.engine == self.engine,
            b.navigation == self.navigation,
    {
        CarBuilder { transmission: Some(transmission), ..self }
    }

    pub fn engine(self, engine: EngineKind) -> (b: CarBuilder)
        ensures
            b.engine == Some(engine),
            b.transmission == self.transmission,
            b.navigation == self.navigation,
    {
        CarBuilder { engine: Some(engine), ..self }
    }

    pub fn navigation(self, navigation: NavigationKind) -> (b: CarBuilder)
        ensures
            b.navigation == Some(navigation),
            b.transmission == self.transmission,
            b.engine == self.engine,
    {
        CarBuilder { navigation: Some(navigation), ..self }
    }
}

} // verus!
