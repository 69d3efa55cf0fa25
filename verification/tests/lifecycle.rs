use reactor_registration::event::Event;
use reactor_registration::lifecycle::Lifecycle;
use reactor_registration::registration::Registration;
use reactor_registration::request::Request;
use reactor_registration::waitable::Waitable;

fn readable(key: usize) -> Event {
    Event { key, readable: true, writable: false }
}

fn writable(key: usize) -> Event {
    Event { key, readable: false, writable: true }
}

#[test]
fn new_lifecycle_is_unregistered() {
    let life = Lifecycle::new(Waitable::Descriptor(3));
    assert_eq!(life, Lifecycle { source: Waitable::Descriptor(3), watched: None });
}

#[test]
fn register_watch_and_remove() {
    let resource = Waitable::Descriptor(5);
    let registration = Registration::new(resource);
    let mut life = Lifecycle::new(resource);

    let add = registration.add(42);
    assert!(life.is_permitted(&add));
    life.record(&add, true);
    assert_eq!(life.watched, Some(Event { key: 42, readable: false, writable: false }));

    let modify = registration.modify(readable(42));
    assert!(life.is_permitted(&modify));
    life.record(&modify, true);
    assert_eq!(life.watched, Some(Event { key: 42, readable: true, writable: false }));

    let delete = registration.delete();
    assert!(life.is_permitted(&delete));
    life.record(&delete, true);
    assert_eq!(life.watched, None);
    assert_eq!(life, Lifecycle::new(resource));
}

#[test]
fn delete_without_add_is_out_of_order() {
    let resource = Waitable::Descriptor(5);
    let registration = Registration::new(resource);
    let mut life = Lifecycle::new(resource);
    let delete = registration.delete();
    assert!(!life.is_permitted(&delete));
    life.record(&delete, false);
    assert_eq!(life, Lifecycle::new(resource));
}

#[test]
fn modify_without_add_is_out_of_order() {
    let resource = Waitable::Handle(5);
    let registration = Registration::new(resource);
    let life = Lifecycle::new(resource);
    assert!(!life.is_permitted(&registration.modify(readable(1))));
}

#[test]
fn poller_refuses_what_was_never_added() {
    let registration = Registration::new(Waitable::Descriptor(0));
    let life = Lifecycle::new(Waitable::Descriptor(0));
    let poller = polling::Poller::new().unwrap();

    let delete = registration.delete();
    assert_eq!(delete, Request::Delete { source: Waitable::Descriptor(0) });
    let answer = poller.delete(std::io::stdin());
    assert!(answer.is_err());
    assert_eq!(answer.is_ok(), life.is_permitted(&delete));

    let modify = registration.modify(readable(1));
    let answer = poller.modify(std::io::stdin(), polling::Event::new(1, true, false));
    assert!(answer.is_err());
    assert_eq!(answer.is_ok(), life.is_permitted(&modify));
}

#[test]
fn add_twice_is_out_of_order() {
    let resource = Waitable::Descriptor(9);
    let registration = Registration::new(resource);
    let mut life = Lifecycle::new(resource);
    life.record(&registration.add(1), true);
    assert!(!life.is_permitted(&registration.add(1)));
    assert!(!life.is_permitted(&registration.add(2)));
    let before = life;
    life.record(&registration.add(2), false);
    assert_eq!(life, before);
    assert!(!life.is_permitted(&registration.add(3)));
}

#[test]
fn add_after_a_failed_first_add_is_in_order() {
    let resource = Waitable::Descriptor(9);
    let registration = Registration::new(resource);
    let mut life = Lifecycle::new(resource);
    life.record(&registration.add(usize::MAX), false);
    assert!(life.is_permitted(&registration.add(1)));
}

#[test]
fn delete_twice_is_out_of_order() {
    let resource = Waitable::Descriptor(9);
    let registration = Registration::new(resource);
    let mut life = Lifecycle::new(resource);
    life.record(&registration.add(1), true);
    life.record(&registration.delete(), true);
    assert!(!life.is_permitted(&registration.delete()));
    assert!(life.is_permitted(&registration.add(1)));
}

#[test]
fn last_modify_wins() {
    let resource = Waitable::Descriptor(9);
    let registration = Registration::new(resource);
    let mut life = Lifecycle::new(resource);
    life.record(&registration.add(6), true);
    life.record(&registration.modify(readable(6)), true);
    life.record(&registration.modify(writable(6)), true);
    assert_eq!(life.watched, Some(Event { key: 6, readable: false, writable: true }));
}

#[test]
fn failed_modify_keeps_the_earlier_interest() {
    let resource = Waitable::Descriptor(9);
    let registration = Registration::new(resource);
    let mut life = Lifecycle::new(resource);
    life.record(&registration.add(6), true);
    life.record(&registration.modify(readable(6)), true);
    life.record(&registration.modify(writable(6)), false);
    assert_eq!(life.watched, Some(readable(6)));
}

#[test]
fn calls_about_another_resource_change_nothing() {
    let mine = Registration::new(Waitable::Descriptor(1));
    let other = Registration::new(Waitable::Descriptor(2));
    let mut life = Lifecycle::new(Waitable::Descriptor(1));
    assert!(!life.is_permitted(&other.add(1)));
    life.record(&other.add(1), true);
    assert_eq!(life, Lifecycle::new(Waitable::Descriptor(1)));
    life.record(&mine.add(1), true);
    let before = life;
    life.record(&other.modify(readable(1)), true);
    life.record(&other.delete(), true);
    assert_eq!(life, before);
    let same_number = Registration::new(Waitable::Handle(1));
    life.record(&same_number.delete(), true);
    assert_eq!(life, before);
}

#[test]
fn an_accepted_call_is_taken_at_the_backends_word() {
    let resource = Waitable::Descriptor(9);
    let registration = Registration::new(resource);
    let mut life = Lifecycle::new(resource);
    life.record(&registration.modify(writable(3)), true);
    assert_eq!(life.watched, Some(writable(3)));
    life.record(&registration.add(4), true);
    assert_eq!(life.watched, Some(Event { key: 4, readable: false, writable: false }));
}
