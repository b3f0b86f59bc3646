use std::cell::RefCell;
use std::rc::Rc;

use event_handler::handler::EventHandler;
use event_handler::outcome::{Delivery, ReentrantInvocation};
use event_handler::slot::{run_found, settle, Bound, Content};

fn recording() -> (Rc<RefCell<Vec<i32>>>, Bound<i32>) {
    let seen = Rc::new(RefCell::new(Vec::new()));
    let sink = seen.clone();
    let bound = Bound::root(move |value: i32| sink.borrow_mut().push(value));
    (seen, bound)
}

#[test]
fn empty_slot_means_the_callback_is_executing() {
    let (kept, outcome) = run_found::<i32>(Content::Executing, false, 5);
    assert!(matches!(kept, Content::Refused));
    assert_eq!(outcome, Err(ReentrantInvocation));
    let (kept, outcome) = run_found::<i32>(Content::Refused, true, 5);
    assert!(matches!(kept, Content::Refused));
    assert_eq!(outcome, Err(ReentrantInvocation));
}

#[test]
fn callback_that_was_found_runs_once_and_is_kept() {
    let (seen, bound) = recording();
    let (kept, outcome) = run_found(Content::Idle(bound), true, 5);
    assert_eq!(outcome, Ok(Delivery::Delivered));
    assert_eq!(*seen.borrow(), vec![5]);
    let (kept, outcome) = run_found(kept, true, 6);
    assert_eq!(outcome, Ok(Delivery::Delivered));
    assert!(matches!(kept, Content::Idle(_)));
    assert_eq!(*seen.borrow(), vec![5, 6]);
}

#[test]
fn callback_that_is_not_vouched_for_is_kept_and_not_run() {
    let (seen, bound) = recording();
    let (kept, outcome) = run_found(Content::Idle(bound), false, 5);
    assert_eq!(outcome, Err(ReentrantInvocation));
    assert!(matches!(kept, Content::Idle(_)));
    assert!(seen.borrow().is_empty());
}

#[test]
fn callback_is_vouched_for_by_its_own_rule_only() {
    let (_seen, bound) = recording();
    let (_other_seen, other) = recording();
    let rule = bound.rule_pointer();
    assert!(bound.vouched_by(&rule));
    assert!(!other.vouched_by(&rule));
    assert!(other.vouched_by(&other.rule_pointer()));
    assert!(Content::Idle(bound).vouched_by(&rule));
    assert!(!Content::Idle(other).vouched_by(&rule));
    assert!(!Content::<i32>::Executing.vouched_by(&rule));
    assert!(!Content::<i32>::Refused.vouched_by(&rule));
}

#[test]
fn mark_of_a_refused_call_fails_the_call() {
    let delivered = Ok(Delivery::Delivered);
    assert_eq!(settle(Content::<i32>::Refused, delivered), Err(ReentrantInvocation));
    assert_eq!(settle(Content::<i32>::Refused, Ok(Delivery::Dropped)), Err(ReentrantInvocation));
    assert_eq!(settle(Content::<i32>::Executing, delivered), delivered);
    assert_eq!(settle(Content::<i32>::Executing, Ok(Delivery::Dropped)), Ok(Delivery::Dropped));
    assert_eq!(
        settle(Content::<i32>::Executing, Err(ReentrantInvocation)),
        Err(ReentrantInvocation)
    );
    let (_seen, bound) = recording();
    assert_eq!(settle(Content::Idle(bound), delivered), delivered);
}

#[test]
fn bound_adapters_do_what_the_handlers_do() {
    let seen = Rc::new(RefCell::new(Vec::new()));
    let sink = seen.clone();
    let handler = EventHandler::new(move |value: i32| sink.borrow_mut().push(value));

    let mapped = Bound::mapped(handler.clone(), |value: i32| value + 1);
    let (mapped, outcome) = mapped.run(1);
    assert_eq!(outcome, Ok(Delivery::Delivered));
    assert_eq!(mapped.run(5).1, Ok(Delivery::Delivered));

    let filtered =
        Bound::filtered(handler.clone(), |value: i32| if value > 0 { Some(value) } else { None });
    let (filtered, outcome) = filtered.run(0);
    assert_eq!(outcome, Ok(Delivery::Dropped));
    assert_eq!(filtered.run(3).1, Ok(Delivery::Delivered));

    let unwrapped = Bound::unwrapped(handler, |value: i32| value * 2);
    let (unwrapped, outcome) = unwrapped.run(None);
    assert_eq!(outcome, Ok(Delivery::Dropped));
    assert_eq!(unwrapped.run(Some(2)).1, Ok(Delivery::Delivered));

    assert_eq!(*seen.borrow(), vec![2, 6, 3, 4]);
}
