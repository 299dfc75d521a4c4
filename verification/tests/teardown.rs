use std::cell::RefCell;
use std::rc::Rc;

use self_cell::cell::JoinedCell;
use self_cell::cell::UnsafeSelfCell;
use self_cell::construct::try_new_cell;
use self_cell::guard::OwnerAndCellDropGuard;

/// A value whose destructor appends its label to a shared event list, so a
/// test can count destructor runs and observe their order.
struct LoggedValue {
    label: &'static str,
    events: Rc<RefCell<Vec<&'static str>>>,
}

impl Drop for LoggedValue {
    fn drop(&mut self) {
        self.events.borrow_mut().push(self.label);
    }
}

fn count(events: &Rc<RefCell<Vec<&'static str>>>, label: &str) -> usize {
    events.borrow().iter().filter(|entry| **entry == label).count()
}

#[test]
fn drop_joined_runs_each_destructor_once_dependent_first() {
    let events: Rc<RefCell<Vec<&'static str>>> = Rc::new(RefCell::new(Vec::new()));
    let owner = LoggedValue { label: "owner", events: events.clone() };
    let dependent = LoggedValue { label: "dependent", events: events.clone() };
    let cell = UnsafeSelfCell::new(JoinedCell { owner, dependent });
    assert_eq!(events.borrow().len(), 0);
    cell.drop_joined();
    assert_eq!(*events.borrow(), vec!["dependent", "owner"]);
}

#[test]
fn into_owner_runs_owner_destructor_exactly_once() {
    let events: Rc<RefCell<Vec<&'static str>>> = Rc::new(RefCell::new(Vec::new()));
    {
        let owner = LoggedValue { label: "owner", events: events.clone() };
        let dependent = LoggedValue { label: "dependent", events: events.clone() };
        let cell = UnsafeSelfCell::new(JoinedCell { owner, dependent });
        let owner_back = cell.into_owner();
        // The extraction itself destroys only the dependent; the owner is
        // alive in the caller's hands.
        assert_eq!(count(&events, "owner"), 0);
        assert_eq!(count(&events, "dependent"), 1);
        assert_eq!(owner_back.label, "owner");
    }
    // The returned owner went out of scope: its destructor has now run, and
    // only once across the whole lifecycle.
    assert_eq!(count(&events, "owner"), 1);
    assert_eq!(count(&events, "dependent"), 1);
}

#[test]
fn abandoned_guard_destroys_owner_only() {
    let events: Rc<RefCell<Vec<&'static str>>> = Rc::new(RefCell::new(Vec::new()));
    let owner = LoggedValue { label: "owner", events: events.clone() };
    let guard: OwnerAndCellDropGuard<LoggedValue, LoggedValue> = OwnerAndCellDropGuard::new(owner);
    guard.dispose();
    assert_eq!(*events.borrow(), vec!["owner"]);
}

#[test]
fn failed_construction_destroys_owner_only() {
    let events: Rc<RefCell<Vec<&'static str>>> = Rc::new(RefCell::new(Vec::new()));
    let owner = LoggedValue { label: "owner", events: events.clone() };
    let result: Result<UnsafeSelfCell<LoggedValue, LoggedValue>, &'static str> =
        try_new_cell(owner, |_stored: &LoggedValue| Err("dependent construction failed"));
    match result {
        Ok(_) => panic!("construction should fail"),
        Err(message) => assert_eq!(message, "dependent construction failed"),
    }
    // The owner's destructor ran exactly once, on the failure path; no
    // dependent ever existed, so its destructor never ran.
    assert_eq!(*events.borrow(), vec!["owner"]);
}

#[test]
fn successful_construction_destroys_nothing_until_teardown() {
    let events: Rc<RefCell<Vec<&'static str>>> = Rc::new(RefCell::new(Vec::new()));
    let owner = LoggedValue { label: "owner", events: events.clone() };
    let result: Result<UnsafeSelfCell<LoggedValue, LoggedValue>, &'static str> =
        try_new_cell(owner, |stored: &LoggedValue| {
            Ok(LoggedValue { label: "dependent", events: stored.events.clone() })
        });
    match result {
        Ok(cell) => {
            assert_eq!(events.borrow().len(), 0);
            cell.drop_joined();
            assert_eq!(*events.borrow(), vec!["dependent", "owner"]);
        }
        Err(_) => panic!("construction should succeed"),
    }
}
