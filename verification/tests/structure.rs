use std::rc::Rc;

use patterns::adapter::{Document, DocumentAdapter, Image, Serialize};
use patterns::bridge::{Black, Circle, Rectangle, Red, Shape};
use patterns::composite::{
    Car, CargoItem, Component, CompositeComponent, SeaContainer, Tanker, Wood,
};
use patterns::decorator::{Coffe, MilkDecoratorCoffe, SimpleCoffe};
use patterns::facade::FacadeVideoFramework;
use patterns::flyweight::{Color, Forest, TreeFactory};
use patterns::proxy::{Database, DatabaseProxy, Storage};

#[test]
fn image_serializes_to_its_bytes() {
    let image = Image::new(&[0, 0, 0, 0]);
    assert_eq!(image.serialize(), vec![0, 0, 0, 0]);
}

#[test]
fn adapter_serializes_document_text() {
    let adapter = DocumentAdapter::new(Document::new("document"));
    assert_eq!(adapter.serialize(), b"document".to_vec());
}

#[test]
fn shapes_draw_with_their_color() {
    let circle = Circle::new(Black::new());
    assert_eq!(
        circle.draw(),
        vec!["Drawing circle".to_string(), "Filling in black color".to_string()]
    );
    let rectangle = Rectangle::new(Red::new());
    assert_eq!(
        rectangle.draw(),
        vec!["Drawing rectangle".to_string(), "Filling in red color".to_string()]
    );
}

#[test]
fn composite_weighs_nested_cargo() {
    let mut container = SeaContainer::new();
    container.add_cargo(CargoItem::Wood(Wood::new()));
    container.add_cargo(CargoItem::Wood(Wood::new()));
    container.add_cargo(CargoItem::Car(Car::new()));
    assert_eq!(container.weight(), 2840);

    let mut container2 = SeaContainer::new();
    container2.add_cargo(CargoItem::Wood(Wood::new()));
    container2.add_cargo(CargoItem::Car(Car::new()));
    container2.add_cargo(CargoItem::Car(Car::new()));
    assert_eq!(container2.weight(), 4720);

    let car = Car::new();
    assert_eq!(car.weight(), 2200);

    let mut tanker = Tanker::new();
    tanker.add_cargo(CargoItem::Sea(container));
    tanker.add_cargo(CargoItem::Sea(container2));
    tanker.add_cargo(CargoItem::Car(car));
    assert_eq!(tanker.weight(), 9760);
}

#[test]
fn empty_container_weighs_nothing() {
    let container = SeaContainer::new();
    assert_eq!(container.weight(), 0);
    assert_eq!(Wood::new().weight(), 320);
}

#[test]
fn milk_decorator_adds_ten_percent() {
    let plain = SimpleCoffe {};
    assert_eq!(plain.cost(), 10000);
    assert_eq!(plain.description(), "Coffe");

    let milk = MilkDecoratorCoffe::new(SimpleCoffe {});
    assert_eq!(milk.cost(), 11000);
    assert_eq!(milk.description(), "Coffe with milk");

    let double = MilkDecoratorCoffe::new(MilkDecoratorCoffe::new(SimpleCoffe {}));
    assert_eq!(double.cost(), 12100);
    assert_eq!(double.description(), "Coffe with milk with milk");
}

#[test]
fn facade_forwards_the_request() {
    let facade = FacadeVideoFramework::new();
    let (filename, codec) = facade.convert("sample.ts", "h265");
    assert_eq!(filename, "sample.ts");
    assert_eq!(codec, "h265");
}

#[test]
fn flyweight_shares_cached_data() {
    let mut forest = Forest::new();
    let mut factory = TreeFactory::new();
    let tree1 = factory.make(Color::Red, "a", &[0; 16], 10, 10);
    let tree2 = factory.make(Color::Green, "b", &[0; 16], 20, 20);
    let tree4 = factory.make(Color::Red, "a", &[7; 16], -10, -10);

    // same key: the heavy data is one shared allocation, and the texture
    // handed in the second time is ignored in favor of the cached bytes
    assert!(Rc::ptr_eq(&tree1.data, &tree4.data));
    assert_eq!(tree4.data.texture, vec![0; 16]);
    assert_eq!(tree4.x, -10);

    // different key: different data
    assert!(!Rc::ptr_eq(&tree1.data, &tree2.data));
    assert_eq!(tree2.data.color, Color::Green);

    forest.add(tree1);
    forest.add(tree2);
    forest.add(tree4);
    assert_eq!(forest.trees.len(), 3);
}

#[test]
fn proxy_frames_the_service_calls() {
    let proxy = DatabaseProxy::new(Database::new());
    assert_eq!(
        proxy.save(),
        vec!["Do before".to_string(), "save data".to_string(), "Do after".to_string()]
    );
    assert_eq!(
        proxy.remove(),
        vec!["Do before".to_string(), "remove data".to_string(), "Do after".to_string()]
    );
}
