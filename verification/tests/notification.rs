use patterns::arena::Arena;
use patterns::mediator::{Event, MediatorColleague, User, UserKind};
use patterns::observer::{Person, Shop};

#[test]
fn fan_out_in_insertion_order() {
    let mut people: Arena<Person> = Arena::new();
    let a = people.insert(Person::new("A"));
    let b = people.insert(Person::new("B"));
    let c = people.insert(Person::new("C"));

    let mut shop = Shop::new();
    shop.subscriber(a);
    shop.subscriber(b);
    shop.subscriber(c);

    let delivered = shop.notify(&mut people, "sale");
    assert_eq!(delivered, vec!["A".to_string(), "B".to_string(), "C".to_string()]);
    assert_eq!(people.get(b).unwrap().inbox, vec!["sale".to_string()]);
}

#[test]
fn weak_reference_cleanup_removes_dead_handle() {
    let mut people: Arena<Person> = Arena::new();
    let a = people.insert(Person::new("A"));
    let b = people.insert(Person::new("B"));
    let c = people.insert(Person::new("C"));

    let mut shop = Shop::new();
    shop.subscriber(a);
    shop.subscriber(b);
    shop.subscriber(c);

    // the owner drops B before the next notify call
    let dropped = people.remove(b);
    assert!(dropped.is_some());
    assert_eq!(shop.count(), 3);

    // exactly one notify pass discovers and removes the dead handle
    let delivered = shop.notify(&mut people, "first");
    assert_eq!(delivered, vec!["A".to_string(), "C".to_string()]);
    assert_eq!(shop.count(), 2);

    // and no later pass ever reaches B again
    let delivered = shop.notify(&mut people, "second");
    assert_eq!(delivered, vec!["A".to_string(), "C".to_string()]);
    assert!(people.get(b).is_none());
}

#[test]
fn duplicate_registration_delivers_twice() {
    let mut people: Arena<Person> = Arena::new();
    let a = people.insert(Person::new("A"));

    let mut shop = Shop::new();
    shop.subscriber(a);
    shop.subscriber(a);

    let delivered = shop.notify(&mut people, "ping");
    assert_eq!(delivered, vec!["A".to_string(), "A".to_string()]);
    assert_eq!(people.get(a).unwrap().inbox, vec!["ping".to_string(), "ping".to_string()]);
}

#[test]
fn unsubscribe_is_exact_and_idempotent() {
    let mut people: Arena<Person> = Arena::new();
    let a = people.insert(Person::new("A"));
    let b = people.insert(Person::new("B"));
    let c = people.insert(Person::new("C"));

    let mut shop = Shop::new();
    shop.subscriber(a);
    shop.subscriber(b);
    shop.subscriber(c);

    shop.unsubscriber(b);
    assert_eq!(shop.count(), 2);
    let delivered = shop.notify(&mut people, "msg");
    assert_eq!(delivered, vec!["A".to_string(), "C".to_string()]);
    assert!(people.get(b).unwrap().inbox.is_empty());

    // removing an absent subscriber is a no-op
    shop.unsubscriber(b);
    assert_eq!(shop.count(), 2);
    let delivered = shop.notify(&mut people, "msg");
    assert_eq!(delivered, vec!["A".to_string(), "C".to_string()]);
}

#[test]
fn delivery_is_not_retracted_by_later_destruction() {
    let mut people: Arena<Person> = Arena::new();
    let a = people.insert(Person::new("A"));
    let b = people.insert(Person::new("B"));
    let c = people.insert(Person::new("C"));

    let mut shop = Shop::new();
    shop.subscriber(a);
    shop.subscriber(b);
    shop.subscriber(c);

    let delivered = shop.notify(&mut people, "event");
    assert_eq!(delivered.len(), 3);

    // B's owner drops it right after B's slot was resolved and delivered:
    // B keeps the event it already received
    let dropped_b = people.remove(b).unwrap();
    assert_eq!(dropped_b.inbox, vec!["event".to_string()]);

    // while later passes no longer reach it
    let delivered = shop.notify(&mut people, "later");
    assert_eq!(delivered, vec!["A".to_string(), "C".to_string()]);
}

#[test]
fn shop_scenario_count_drops_from_three_to_two() {
    let mut people: Arena<Person> = Arena::new();
    let person1 = people.insert(Person::new("Person 1"));
    let person2 = people.insert(Person::new("Person 2"));
    let person3 = people.insert(Person::new("Person 3"));

    let mut shop = Shop::new();
    shop.subscriber(person1);
    shop.subscriber(person2);
    shop.subscriber(person3);

    let delivered = shop.notify(&mut people, "Hello from Shop");
    assert_eq!(
        delivered,
        vec!["Person 1".to_string(), "Person 2".to_string(), "Person 3".to_string()]
    );
    assert_eq!(people.get(person1).unwrap().inbox, vec!["Hello from Shop".to_string()]);
    assert_eq!(people.get(person3).unwrap().inbox, vec!["Hello from Shop".to_string()]);
    assert_eq!(shop.count(), 3);

    people.remove(person2);
    shop.notify(&mut people, "Hello from Shop");
    assert_eq!(shop.count(), 2);
    assert_eq!(people.get(person1).unwrap().inbox.len(), 2);
    assert!(people.get(person2).is_none());
    assert_eq!(people.get(person3).unwrap().inbox.len(), 2);
}

#[test]
fn person_update_appends_to_inbox() {
    let mut p = Person::new("X");
    assert!(p.inbox.is_empty());
    p.update("one".to_string());
    p.update("two".to_string());
    assert_eq!(p.name, "X");
    assert_eq!(p.inbox, vec!["one".to_string(), "two".to_string()]);
}

#[test]
fn user_recv_appends_to_inbox() {
    let mut u = User::new(UserKind::Developer);
    assert_eq!(u.kind(), UserKind::Developer);
    u.recv(Event::ChangeUser);
    assert_eq!(u.inbox, vec![Event::ChangeUser]);
}

#[test]
fn arena_handles_stay_dead() {
    let mut people: Arena<Person> = Arena::new();
    let a = people.insert(Person::new("A"));
    assert_eq!(people.len(), 1);
    assert!(people.get(a).is_some());

    people.remove(a);
    assert!(people.get(a).is_none());

    // a later insertion never resurrects the dead handle
    let b = people.insert(Person::new("B"));
    assert!(people.get(a).is_none());
    assert!(people.get(b).is_some());
    assert_eq!(people.len(), 2);

    // removing an already dead handle yields nothing
    assert!(people.remove(a).is_none());
}

#[test]
fn arena_set_replaces_value_in_place() {
    let mut people: Arena<Person> = Arena::new();
    let a = people.insert(Person::new("A"));
    assert!(people.set(a, Person::new("A2")));
    assert_eq!(people.get(a).unwrap().name, "A2");

    people.remove(a);
    assert!(!people.set(a, Person::new("A3")));
    assert!(people.get(a).is_none());
}

#[test]
fn mediator_routes_creation_to_team_leads_only() {
    let mut roster: Arena<User> = Arena::new();
    let lead = roster.insert(User::new(UserKind::TeamLead));
    let dev1 = roster.insert(User::new(UserKind::Developer));
    let dev2 = roster.insert(User::new(UserKind::Developer));

    let mut mediator = MediatorColleague::new();
    mediator.register(lead);
    mediator.register(dev1);
    mediator.register(dev2);

    let delivered = mediator.send(&mut roster, Event::CreateUser);
    assert_eq!(delivered, vec![lead]);
    assert_eq!(roster.get(lead).unwrap().inbox, vec![Event::CreateUser]);
    assert!(roster.get(dev1).unwrap().inbox.is_empty());

    let delivered = mediator.send(&mut roster, Event::ChangeUser);
    assert_eq!(delivered, vec![lead, dev1, dev2]);
    assert_eq!(roster.get(lead).unwrap().inbox, vec![Event::CreateUser, Event::ChangeUser]);
    assert_eq!(roster.get(dev2).unwrap().inbox, vec![Event::ChangeUser]);
}

#[test]
fn mediator_prunes_dead_colleagues() {
    let mut roster: Arena<User> = Arena::new();
    let lead = roster.insert(User::new(UserKind::TeamLead));
    let dev = roster.insert(User::new(UserKind::Developer));

    let mut mediator = MediatorColleague::new();
    mediator.register(lead);
    mediator.register(dev);
    assert_eq!(mediator.count(), 2);

    roster.remove(dev);
    let delivered = User::send(&mut mediator, &mut roster, Event::ChangeUser);
    assert_eq!(delivered, vec![lead]);
    assert_eq!(mediator.count(), 1);

    assert_eq!(roster.get(lead).unwrap().kind(), UserKind::TeamLead);
}
