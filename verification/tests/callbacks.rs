use std::cell::{Cell, RefCell};
use std::rc::Rc;
use ui_core::events::{
    Callback, CustomEventListener, CustomRefEventListener, Group, RefCallback, ReentrantAccess,
};

#[test]
fn closure_handles_the_events_of_a_listener() {
    let total = Rc::new(Cell::new(0));
    let mut listener = CustomEventListener::new();
    assert_eq!(listener.fire(5), Ok(false));
    let handler = {
        let total = total.clone();
        Callback::new(move |x: i32| total.set(total.get() + x))
    };
    assert!(listener.set_handler(handler).is_ok());
    assert_eq!(listener.fire(5), Ok(true));
    assert_eq!(total.get(), 5);
    assert_eq!(listener.fire(-2), Ok(true));
    assert_eq!(total.get(), 3);
    listener.remove_handler();
    assert_eq!(listener.fire(5), Ok(false));
    assert_eq!(total.get(), 3);
}

#[test]
fn closure_handles_events_by_reference() {
    let seen = Rc::new(RefCell::new(Vec::new()));
    let mut listener = CustomRefEventListener::new();
    let handler = {
        let seen = seen.clone();
        RefCallback::new(move |name: &String| seen.borrow_mut().push(name.clone()))
    };
    assert!(listener.set_handler(handler).is_ok());
    assert_eq!(listener.fire(&"a".to_owned()), Ok(true));
    assert_eq!(listener.fire(&"b".to_owned()), Ok(true));
    assert_eq!(*seen.borrow(), vec!["a".to_owned(), "b".to_owned()]);
    assert!(listener.remove_handler().unwrap().is_some());
    assert_eq!(listener.fire(&"c".to_owned()), Ok(false));
    assert_eq!(seen.borrow().len(), 2);
}

#[test]
fn closures_subscribe_to_a_group() {
    let seen = Rc::new(RefCell::new(Vec::new()));
    let subscriber = |name: &'static str| {
        let seen = seen.clone();
        RefCallback::new(move |value: &i32| seen.borrow_mut().push((name, *value)))
    };
    let mut group = Group::new();
    let a = group.register(subscriber("A")).unwrap();
    let _b = group.register(subscriber("B")).unwrap();

    assert_eq!(group.notify(1), Ok(()));
    let mut first = seen.borrow().clone();
    first.sort();
    assert_eq!(first, vec![("A", 1), ("B", 1)]);

    assert_eq!(a.deregister(&mut group), Ok(()));
    seen.borrow_mut().clear();
    assert_eq!(group.notify(2), Ok(()));
    assert_eq!(*seen.borrow(), vec![("B", 2)]);
}

#[test]
fn loaned_listener_refuses_as_it_does_for_any_handler() {
    let mut listener = CustomEventListener::new();
    assert!(listener.set_handler(Callback::new(|_: u8| {})).is_ok());
    let loan = listener.loan_handler().ok().unwrap();
    assert_eq!(listener.fire(1), Err(ReentrantAccess));
    listener.return_handler(loan);
    assert_eq!(listener.fire(1), Ok(true));
}
