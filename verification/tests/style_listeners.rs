use std::cell::Cell;
use std::rc::Rc;

use sir::{register_once, CssCollection, RegistrationLatch};
use sir::{StyleListener, StyleListeners};

type Update = Box<dyn Fn()>;

fn counting(counter: &Rc<Cell<u32>>) -> Update {
    let counter = Rc::clone(counter);
    Box::new(move || counter.set(counter.get() + 1))
}

fn notify(listeners: &StyleListeners<Update>) {
    for (_, update) in listeners.notify() {
        update();
    }
}

#[test]
fn notify_calls_every_listener_once() {
    let first_calls = Rc::new(Cell::new(0));
    let second_calls = Rc::new(Cell::new(0));
    let mut listeners = StyleListeners::new();
    let first = StyleListener::register(&mut listeners, 1, counting(&first_calls));
    let _second = StyleListener::register(&mut listeners, 2, counting(&second_calls));

    notify(&listeners);
    assert_eq!(first_calls.get(), 1);
    assert_eq!(second_calls.get(), 1);

    first.release(&mut listeners);
    notify(&listeners);
    assert_eq!(first_calls.get(), 1);
    assert_eq!(second_calls.get(), 2);
}

#[test]
fn notify_without_listeners_calls_nobody() {
    let listeners: StyleListeners<Update> = StyleListeners::new();
    assert!(listeners.notify().is_empty());
}

#[test]
fn notify_names_each_listener_with_its_callback() {
    let mut listeners = StyleListeners::new();
    for id in [5u64, 3, 9] {
        StyleListener::register(&mut listeners, id, id * 10);
    }
    let mut plan: Vec<(u64, u64)> =
        listeners.notify().into_iter().map(|(id, update)| (id, *update)).collect();
    plan.sort();
    assert_eq!(plan, vec![(3, 30), (5, 50), (9, 90)]);
}

#[test]
fn release_is_idempotent() {
    let mut listeners = StyleListeners::new();
    let first = StyleListener::register(&mut listeners, 1, 'a');
    let _second = StyleListener::register(&mut listeners, 2, 'b');
    first.release(&mut listeners);
    first.release(&mut listeners);
    assert_eq!(listeners.notify(), vec![(2, &'b')]);
}

#[test]
fn registering_again_replaces_the_callback() {
    let mut listeners = StyleListeners::new();
    let old = StyleListener::register(&mut listeners, 4, "old");
    let new = StyleListener::register(&mut listeners, 4, "new");
    assert_eq!(old.id(), 4);
    assert_eq!(new.id(), 4);
    assert_eq!(listeners.notify(), vec![(4, &"new")]);
    old.release(&mut listeners);
    assert!(listeners.notify().is_empty());
}

#[test]
fn notification_follows_a_new_registration() {
    let calls = Rc::new(Cell::new(0));
    let mut listeners = StyleListeners::new();
    let _listener = StyleListener::register(&mut listeners, 1, counting(&calls));
    let mut collection = CssCollection::new();
    let mut latch = RegistrationLatch::new();
    for _ in 0..3 {
        if register_once(&mut latch, &mut collection, "a {\n  b: c;\n}\n") {
            notify(&listeners);
        }
    }
    assert_eq!(calls.get(), 1);
    assert_eq!(collection.get_css(), "a {\n  b: c;\n}\n");
}
