//! The simple-factory demonstration: a factory that validates its input
//! before constructing a door.

use vstd::prelude::*;

verus! {

#[derive(Clone, Copy, PartialEq, Eq, Structural, Debug)]
pub enum Color {
    White,
    Black,
}

#[derive(Debug)]
pub struct Door {
    pub name: String,
    pub color: Color,
}

impl Door {
    pub fn new(name: &str, color: Color) -> (d: Door)
        ensures
            d.name@ == name@,
            d.color == color,
    {
        Door { name: name.to_owned(), color }
    }
}

pub struct DoorFactory {}

impl DoorFactory {
    /// Construct a door, rejecting names longer than ten bytes: `None`
    /// exactly on over-long names.
    pub fn make(name: &str, color: Color) -> (r: Option<Door>)
        ensures
            r is Some <==> name.len() <= 10,
            r is Some ==> r->0.name@ == name@ && r->0.color == color,
    {
        if name.len() > 10 {
            return None;
        }
        Some(Door::new(name, color))
    }
}

} // verus!
