use patterns::abstract_factory::{Button, Label, WidgetFactory};
use patterns::abstract_factory::{GtkWidgetFactory, QtWidgetFactory};
use patterns::builder::{Car, CarBuilder, EngineKind, NavigationKind, TransmissionKind};
use patterns::factory::{Color, DoorFactory};
use patterns::factory_method::{Logistics, RoadLogistics, SeaLogistics, Transport};
use patterns::prototype::Warrior;
use patterns::singleton::Dictionary;

#[test]
fn builder_builds_full_car() {
    let car: Car = CarBuilder::new()
        .engine(EngineKind::Gasoline)
        .transmission(TransmissionKind::Auto)
        .navigation(NavigationKind::Glonas)
        .build()
        .unwrap();
    assert_eq!(car.engine, EngineKind::Gasoline);
    assert_eq!(car.transmission, TransmissionKind::Auto);
    assert_eq!(car.navigation, Some(NavigationKind::Glonas));
}

#[test]
fn builder_navigation_is_optional() {
    let car = CarBuilder::new()
        .engine(EngineKind::Diesel)
        .transmission(TransmissionKind::Manual)
        .build()
        .unwrap();
    assert_eq!(car.navigation, None);
}

#[test]
fn builder_requires_engine_and_transmission() {
    assert!(CarBuilder::new().build().is_none());
    assert!(CarBuilder::new().engine(EngineKind::Gasoline).build().is_none());
    assert!(CarBuilder::new().transmission(TransmissionKind::Auto).build().is_none());
}

#[test]
fn door_factory_accepts_short_names() {
    let door = DoorFactory::make("Wood Door", Color::White).unwrap();
    assert_eq!(door.name, "Wood Door");
    assert_eq!(door.color, Color::White);
}

#[test]
fn door_factory_rejects_long_names() {
    assert!(DoorFactory::make("exactly10!", Color::Black).is_some());
    assert!(DoorFactory::make("eleven chars", Color::Black).is_none());
}

#[test]
fn factory_methods_choose_the_transport() {
    let road = RoadLogistics::new();
    assert_eq!(road.make_transport().deliver(), "Delivery by car");
    let sea = SeaLogistics::new();
    assert_eq!(sea.make_transport().deliver(), "Delivery by ship");
}

#[test]
fn widget_families_stay_consistent() {
    let factory = GtkWidgetFactory {};
    assert_eq!(factory.create_button().click(), "Clicked GTK button");
    assert_eq!(factory.create_label().onfocus(), "Onfocus GTK label");

    let factory = QtWidgetFactory {};
    assert_eq!(factory.create_button().click(), "Clicked QT button");
    assert_eq!(factory.create_label().onfocus(), "Onfocus QT label");
}

#[test]
fn prototype_clone_resets_force() {
    let farmer = Warrior { name: "Farmer".to_string(), force: 40 };
    let copy = farmer.clone();
    assert_eq!(copy.name, "Farmer");
    assert_eq!(copy.force, 90);
    assert_eq!(farmer.force, 40);
}

#[test]
fn dictionary_inserts_and_looks_up() {
    let mut dict = Dictionary::new();
    assert!(dict.get(&1).is_none());
    dict.insert(1, 1);
    assert_eq!(dict.get(&1), Some(&1));
    assert!(dict.get(&2).is_none());
    dict.insert(1, 5);
    assert_eq!(dict.get(&1), Some(&5));
    assert_eq!(dict.len(), 1);
    dict.insert(2, 7);
    assert_eq!(dict.len(), 2);
}
