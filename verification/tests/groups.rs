use std::cell::RefCell;
use std::rc::Rc;
use ui_core::events::{Group, GroupError, Subscriber};

type Log = Rc<RefCell<Vec<(&'static str, i32)>>>;

struct Recorder {
    name: &'static str,
    log: Log,
}

impl Subscriber<i32> for Recorder {
    fn notify(&mut self, _group: &mut Group<i32, Recorder>, value: &i32) {
        self.log.borrow_mut().push((self.name, *value));
    }
}

fn recorder(name: &'static str, log: &Log) -> Recorder {
    Recorder { name, log: log.clone() }
}

#[test]
fn notify_reaches_every_subscriber_once() {
    let log: Log = Rc::new(RefCell::new(Vec::new()));
    let mut group = Group::new();
    assert_eq!(group.notify(0), Ok(()));
    assert!(log.borrow().is_empty());

    let _a = group.register(recorder("A", &log)).unwrap();
    assert_eq!(group.notify(1), Ok(()));
    assert_eq!(*log.borrow(), vec![("A", 1)]);

    let _b = group.register(recorder("B", &log)).unwrap();
    let _c = group.register(recorder("C", &log)).unwrap();
    log.borrow_mut().clear();
    assert_eq!(group.notify(7), Ok(()));
    let mut seen = log.borrow().clone();
    seen.sort();
    assert_eq!(seen, vec![("A", 7), ("B", 7), ("C", 7)]);
}

#[test]
fn deregistered_subscriber_is_not_notified_again() {
    let log: Log = Rc::new(RefCell::new(Vec::new()));
    let mut group = Group::new();
    let token_a = group.register(recorder("A", &log)).unwrap();
    let _token_b = group.register(recorder("B", &log)).unwrap();

    assert_eq!(group.notify(1), Ok(()));
    let mut seen = log.borrow().clone();
    seen.sort();
    assert_eq!(seen, vec![("A", 1), ("B", 1)]);

    assert_eq!(token_a.deregister(&mut group), Ok(()));
    log.borrow_mut().clear();
    assert_eq!(group.notify(2), Ok(()));
    assert_eq!(*log.borrow(), vec![("B", 2)]);
}

#[test]
fn second_deregistration_changes_nothing() {
    let log: Log = Rc::new(RefCell::new(Vec::new()));
    let mut group = Group::new();
    let mut token_a = group.register(recorder("A", &log)).unwrap();
    let _token_b = group.register(recorder("B", &log)).unwrap();
    assert_eq!(token_a.deregister_internal(&mut group), Ok(()));
    assert_eq!(token_a.deregister_internal(&mut group), Ok(()));
    assert_eq!(token_a.deregister(&mut group), Ok(()));
    assert_eq!(group.notify(3), Ok(()));
    assert_eq!(*log.borrow(), vec![("B", 3)]);
}

#[test]
fn forgotten_subscription_stays() {
    let log: Log = Rc::new(RefCell::new(Vec::new()));
    let mut group = Group::new();
    let token = group.register(recorder("A", &log)).unwrap();
    token.forget();
    assert_eq!(group.notify(4), Ok(()));
    assert_eq!(*log.borrow(), vec![("A", 4)]);
}

#[test]
fn token_notifies_its_group() {
    let log: Log = Rc::new(RefCell::new(Vec::new()));
    let mut group = Group::new();
    let token = group.register(recorder("A", &log)).unwrap();
    assert_eq!(token.notify(&mut group, 11), Ok(()));
    assert_eq!(*log.borrow(), vec![("A", 11)]);
}

#[test]
fn identifiers_rise_from_one() {
    let log: Log = Rc::new(RefCell::new(Vec::new()));
    let mut group = Group::new();
    assert_eq!(group.register(recorder("A", &log)).unwrap().id(), 1);
    assert_eq!(group.register(recorder("B", &log)).unwrap().id(), 2);
    assert_eq!(group.get_next_id(), Ok(3));
    assert_eq!(group.register(recorder("C", &log)).unwrap().id(), 4);
}

#[test]
fn full_identifier_space_refuses_registration() {
    let log: Log = Rc::new(RefCell::new(Vec::new()));
    let mut group = Group::with_max_id(2);
    let first = group.register(recorder("A", &log)).unwrap();
    let second = group.register(recorder("B", &log)).unwrap();
    let third = group.register(recorder("C", &log)).unwrap();
    assert_eq!((first.id(), second.id(), third.id()), (1, 2, 0));

    assert_eq!(group.register(recorder("D", &log)).err(), Some(GroupError::IdentifierSpaceExhausted));
    assert_eq!(group.get_next_id(), Err(GroupError::IdentifierSpaceExhausted));
    assert_eq!(group.notify(5), Ok(()));
    assert_eq!(log.borrow().len(), 3);

    assert_eq!(second.deregister(&mut group), Ok(()));
    let again = group.register(recorder("E", &log)).unwrap();
    assert_eq!(again.id(), 2);
    assert_eq!(group.register(recorder("F", &log)).err(), Some(GroupError::IdentifierSpaceExhausted));
}

#[test]
fn identifiers_in_use_are_skipped_after_wrapping() {
    let log: Log = Rc::new(RefCell::new(Vec::new()));
    let mut group = Group::with_max_id(3);
    let one = group.register(recorder("A", &log)).unwrap();
    let two = group.register(recorder("B", &log)).unwrap();
    let three = group.register(recorder("C", &log)).unwrap();
    assert_eq!((one.id(), two.id(), three.id()), (1, 2, 3));
    assert_eq!(two.deregister(&mut group), Ok(()));
    assert_eq!(group.register(recorder("D", &log)).unwrap().id(), 0);
    assert_eq!(group.register(recorder("E", &log)).unwrap().id(), 2);
}

#[test]
fn single_identifier_space() {
    let log: Log = Rc::new(RefCell::new(Vec::new()));
    let mut group = Group::with_max_id(0);
    let only = group.register(recorder("A", &log)).unwrap();
    assert_eq!(only.id(), 0);
    assert_eq!(group.register(recorder("B", &log)).err(), Some(GroupError::IdentifierSpaceExhausted));
    assert_eq!(only.deregister(&mut group), Ok(()));
    assert_eq!(group.register(recorder("C", &log)).unwrap().id(), 0);
}

struct Meddler {
    refusals: Rc<RefCell<Vec<GroupError>>>,
}

impl Subscriber<u8> for Meddler {
    fn notify(&mut self, group: &mut Group<u8, Meddler>, value: &u8) {
        let mut refusals = self.refusals.borrow_mut();
        if let Err(error) = group.register(Meddler { refusals: self.refusals.clone() }) {
            refusals.push(error);
        }
        if let Err(error) = group.notify(*value) {
            refusals.push(error);
        }
        if let Err(error) = group.get_next_id() {
            refusals.push(error);
        }
    }
}

#[test]
fn group_refuses_its_subscribers_during_a_notification() {
    let refusals = Rc::new(RefCell::new(Vec::new()));
    let mut group = Group::new();
    let token = group.register(Meddler { refusals: refusals.clone() }).unwrap();
    assert_eq!(group.notify(1), Ok(()));
    assert_eq!(*refusals.borrow(), vec![GroupError::ReentrantAccess; 3]);

    refusals.borrow_mut().clear();
    assert_eq!(group.notify(2), Ok(()));
    assert_eq!(refusals.borrow().len(), 3);
    assert_eq!(token.deregister(&mut group), Ok(()));
    assert_eq!(group.notify(3), Ok(()));
    assert_eq!(refusals.borrow().len(), 3);
}

struct Leaver {
    token: Option<ui_core::events::GroupToken<u8>>,
    outcome: Rc<RefCell<Option<Result<(), GroupError>>>>,
}

impl Subscriber<u8> for Leaver {
    fn notify(&mut self, group: &mut Group<u8, Leaver>, _value: &u8) {
        if let Some(token) = self.token.take() {
            *self.outcome.borrow_mut() = Some(token.deregister(group));
        }
    }
}

#[test]
fn deregistration_is_refused_during_a_notification() {
    let outcome = Rc::new(RefCell::new(None));
    let mut group: Group<u8, Leaver> = Group::new();
    let _first = group.register(Leaver { token: None, outcome: outcome.clone() }).unwrap();
    let second = group.register(Leaver { token: None, outcome: outcome.clone() }).unwrap();
    let _third = group.register(Leaver { token: Some(second), outcome: outcome.clone() }).unwrap();
    assert_eq!(group.notify(1), Ok(()));
    assert_eq!(*outcome.borrow(), Some(Err(GroupError::ReentrantAccess)));
    assert_eq!(group.get_next_id(), Ok(4));
}

#[test]
fn spent_token_leaves_a_later_subscriber_alone() {
    let log: Log = Rc::new(RefCell::new(Vec::new()));
    let mut group = Group::with_max_id(0);
    let mut first = group.register(recorder("A", &log)).unwrap();
    assert_eq!(first.deregister_internal(&mut group), Ok(()));
    let second = group.register(recorder("B", &log)).unwrap();
    assert_eq!((first.id(), second.id()), (0, 0));

    assert_eq!(first.deregister_internal(&mut group), Ok(()));
    assert_eq!(first.deregister(&mut group), Ok(()));
    assert_eq!(group.notify(6), Ok(()));
    assert_eq!(*log.borrow(), vec![("B", 6)]);

    assert_eq!(second.deregister(&mut group), Ok(()));
    assert_eq!(group.notify(7), Ok(()));
    assert_eq!(log.borrow().len(), 1);
}
