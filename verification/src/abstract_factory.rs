//! The abstract-factory demonstration: a family of widgets (buttons and
//! labels) is created together, in one of two styles.

use vstd::prelude::*;

verus! {

pub trait Button {
    /// The line `click` reports.
    spec fn spec_click(&self) -> Seq<char>;

    fn click(&self) -> (r: String)
        ensures
            r@ == self.spec_click(),
    ;
}

pub struct ButtonQT {}

impl Button for ButtonQT {
    open spec fn spec_click(&self) -> Seq<char> {
        "Clicked QT button"@
    }

    fn click(&self) -> (r: String) {
        "Clicked QT button".to_owned()
    }
}

pub struct ButtonGTK {}

impl Button for ButtonGTK {
    open spec fn spec_click(&self) -> Seq<char> {
        "Clicked GTK button"@
    }

    fn click(&self) -> (r: String) {
        "Clicked GTK button".to_owned()
    }
}

pub trait Label {
    /// The line `onfocus` reports.
    spec fn spec_onfocus(&self) -> Seq<char>;

    fn onfocus(&self) -> (r: String)
        ensures
            r@ == self.spec_onfocus(),
    ;
}

pub struct LabelQT {}

impl Label for LabelQT {
    open spec fn spec_onfocus(&self) -> Seq<char> {
        "Onfocus QT label"@
    }

    fn onfocus(&self) -> (r: String) {
        "Onfocus QT label".to_owned()
    }
}

pub struct LabelGTK {}

impl Label for LabelGTK {
    open spec fn spec_onfocus(&self) -> Seq<char> {
        "Onfocus GTK label"@
    }

    fn onfocus(&self) -> (r: String) {
        "Onfocus GTK label".to_owned()
    }
}

/// A factory of factory methods: every widget it creates belongs to one
/// family.
pub trait WidgetFactory {
    type B: Button;

    type L: Label;

    fn create_button(&self) -> Self::B;

    fn create_label(&self) -> Self::L;
}

pub struct QtWidgetFactory {}

impl WidgetFactory for QtWidgetFactory {
    type B = ButtonQT;

    type L = LabelQT;

    fn create_button(&self) -> ButtonQT {
        ButtonQT {}
    }

    fn create_label(&self) -> LabelQT {
        LabelQT {}
    }
}

pub struct GtkWidgetFactory {}

impl WidgetFactory for GtkWidgetFactory {
    type B = ButtonGTK;

    type L = LabelGTK;

    fn create_button(&self) -> ButtonGTK {
        ButtonGTK {}
    }

    fn create_label(&self) -> LabelGTK {
        LabelGTK {}
    }
}

} // verus!
