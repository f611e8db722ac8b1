//! The bridge demonstration: shapes and colors vary independently; a shape
//! is composed with the color that fills it.

use vstd::prelude::*;

verus! {

pub trait Color {
    /// The line `fill` reports.
    spec fn spec_fill(&self) -> Seq<char>;

    fn fill(&self) -> (r: String)
        ensures
            r@ == self.spec_fill(),
    ;
}

pub struct Black {}

impl Black {
    pub fn new() -> (c: Black) {
        Black {}
    }
}

impl Color for Black {
    open spec fn spec_fill(&self) -> Seq<char> {
        "Filling in black color"@
    }

    fn fill(&self) -> (r: String) {
        "Filling in black color".to_owned()
    }
}

pub struct Red {}

impl Red {
    pub fn new() -> (c: Red) {
        Red {}
    }
}

impl Color for Red {
    open spec fn spec_fill(&self) -> Seq<char> {
        "Filling in red color"@
    }

    fn fill(&self) -> (r: String) {
        "Filling in red color".to_owned()
    }
}

pub trait Shape {
    /// The lines `draw` reports, in order.
    spec fn spec_draw(&self) -> Seq<Seq<char>>;

    fn draw(&self) -> (r: Vec<String>)
        ensures
            r.deep_view() == self.spec_draw(),
    ;
}

pub struct Circle<C: Color> {
    pub color: C,
}

impl<C: Color> Circle<C> {
    pub fn new(color: C) -> (s: Circle<C>)
        ensures
            s.color == color,
    {
        Circle { color }
    }
}

impl<C: Color> Shape for Circle<C> {
    open spec fn spec_draw(&self) -> Seq<Seq<char>> {
        seq!["Drawing circle"@, self.color.spec_fill()]
    }

    fn draw(&self) -> (r: Vec<String>) {
        let mut r: Vec<String> = Vec::new();
        r.push("Drawing circle".to_owned());
        r.push(self.color.fill());
        proof {
            assert(r.deep_view() =~= self.spec_draw());
        }
        r
    }
}

pub struct Rectangle<C: Color> {
    pub color: C,
}

impl<C: Color> Rectangle<C> {
    pub fn new(color: C) -> (s: Rectangle<C>)
        ensures
            s.color == color,
    {
        Rectangle { color }
    }
}

impl<C: Color> Shape for Rectangle<C> {
    open spec fn spec_draw(&self) -> Seq<Seq<char>> {
        seq!["Drawing rectangle"@, self.color.spec_fill()]
    }

    fn draw(&self) -> (r: Vec<String>) {
        let mut r: Vec<String> = Vec::new();
        r.push("Drawing rectangle".to_owned());
        r.push(self.color.fill());
        proof {
            assert(r.deep_view() =~= self.spec_draw());
        }
        r
    }
}

} // verus!
