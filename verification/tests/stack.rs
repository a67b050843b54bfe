use crash_handling::stack::{DetachOutcome, HandlerStack};

#[test]
fn attach_then_detach_restores_the_stack() {
    let mut s = HandlerStack::new();
    s.push(10);
    s.push(20);
    s.push(30);
    assert_eq!(s.len(), 3);
    assert_eq!(s.top(), Some(30));
    assert_eq!(s.detach(30), DetachOutcome::Removed);
    assert_eq!(s.len(), 2);
    assert_eq!(s.top(), Some(20));
}

#[test]
fn detach_from_the_middle_keeps_the_order() {
    let mut s = HandlerStack::new();
    s.push(1);
    s.push(2);
    s.push(3);
    assert_eq!(s.detach(2), DetachOutcome::Removed);
    assert_eq!((s.get(0), s.get(1)), (1, 3));
    assert_eq!(s.position(3), Some(1));
    assert_eq!(s.position(2), None);
}

#[test]
fn detaching_the_last_handler_asks_for_restoration() {
    let mut s = HandlerStack::new();
    s.push(7);
    assert_eq!(s.detach(7), DetachOutcome::RemovedLast);
    assert!(s.is_empty());
    assert_eq!(s.top(), None);
}

#[test]
fn detaching_an_unattached_handler_changes_nothing() {
    let mut s = HandlerStack::new();
    s.push(4);
    assert_eq!(s.detach(5), DetachOutcome::NotAttached);
    assert_eq!(s.len(), 1);
    assert!(s.contains(4));
    let mut empty = HandlerStack::new();
    assert_eq!(empty.detach(1), DetachOutcome::NotAttached);
}

#[test]
fn dispatch_stops_at_the_first_handler_that_handles() {
    let mut s = HandlerStack::new();
    s.push(1);
    s.push(2);
    s.push(3);
    let asked = std::cell::RefCell::new(Vec::new());
    let r = s.dispatch(|id| {
        asked.borrow_mut().push(id);
        id == 2
    });
    assert_eq!(r, Some(1));
    assert_eq!(*asked.borrow(), vec![1, 2]);
    assert_eq!(s.dispatch(|_| false), None);
    assert_eq!(HandlerStack::new().dispatch(|_| true), None);
}

#[test]
fn detach_order_does_not_matter() {
    let build = || {
        let mut s = HandlerStack::new();
        for id in [5, 6, 7, 8] {
            s.push(id);
        }
        s
    };
    let mut first = build();
    first.detach(6);
    first.detach(8);
    let mut second = build();
    second.detach(8);
    second.detach(6);
    assert_eq!(first.len(), 2);
    assert_eq!((first.get(0), first.get(1)), (second.get(0), second.get(1)));
    assert_eq!((first.get(0), first.get(1)), (5, 7));
}

#[test]
fn attached_handler_is_on_top() {
    let mut s = HandlerStack::new();
    s.push(1);
    s.push(9);
    assert_eq!(s.top(), Some(9));
}
