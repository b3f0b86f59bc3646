use std::cell::Cell;
use std::rc::Rc;

use event_handler::counter::{AppEvent, CounterEvent};
use event_handler::handler::EventHandler;
use event_handler::outcome::Delivery;

fn counting() -> (Rc<Cell<i32>>, EventHandler<AppEvent>) {
    let count = Rc::new(Cell::new(0));
    let shown = count.clone();
    let handler = EventHandler::new(move |event: AppEvent| {
        if let Some(next) = event.apply(shown.get()) {
            shown.set(next);
        }
    });
    (count, handler)
}

#[test]
fn increase_adds_one() {
    assert_eq!(CounterEvent::Increase.apply(0), Some(1));
    assert_eq!(CounterEvent::Increase.apply(-1), Some(0));
    assert_eq!(CounterEvent::Increase.apply(41), Some(42));
}

#[test]
fn decrease_takes_one() {
    assert_eq!(CounterEvent::Decrease.apply(0), Some(-1));
    assert_eq!(CounterEvent::Decrease.apply(1), Some(0));
    assert_eq!(CounterEvent::Decrease.apply(-41), Some(-42));
}

#[test]
fn count_stays_an_i32() {
    assert_eq!(CounterEvent::Increase.apply(i32::MAX), None);
    assert_eq!(CounterEvent::Increase.apply(i32::MAX - 1), Some(i32::MAX));
    assert_eq!(CounterEvent::Decrease.apply(i32::MIN), None);
    assert_eq!(CounterEvent::Decrease.apply(i32::MIN + 1), Some(i32::MIN));
    assert_eq!(CounterEvent::Decrease.apply(i32::MAX), Some(i32::MAX - 1));
    assert_eq!(CounterEvent::Increase.apply(i32::MIN), Some(i32::MIN + 1));
}

#[test]
fn app_event_does_what_its_counter_event_does() {
    assert_eq!(AppEvent::Counter(CounterEvent::Increase).apply(5), Some(6));
    assert_eq!(AppEvent::Counter(CounterEvent::Decrease).apply(5), Some(4));
    assert_eq!(AppEvent::Counter(CounterEvent::Increase).apply(i32::MAX), None);
    assert_eq!(AppEvent::Counter(CounterEvent::Decrease).apply(i32::MIN), None);
}

#[test]
fn three_up_and_one_down_leave_two() {
    let (count, handler) = counting();
    let counter = handler.map(AppEvent::Counter);
    for event in [
        CounterEvent::Increase,
        CounterEvent::Increase,
        CounterEvent::Increase,
        CounterEvent::Decrease,
    ] {
        assert_eq!(counter.call(event), Ok(Delivery::Delivered));
    }
    assert_eq!(count.get(), 2);
}

#[test]
fn two_buttons_drive_one_count() {
    let (count, handler) = counting();
    let counter = handler.map(AppEvent::Counter);
    let increase = counter.clone();
    let decrease = counter;
    assert_eq!(increase.call(CounterEvent::Increase), Ok(Delivery::Delivered));
    assert_eq!(decrease.call(CounterEvent::Decrease), Ok(Delivery::Delivered));
    assert_eq!(decrease.call(CounterEvent::Decrease), Ok(Delivery::Delivered));
    assert_eq!(count.get(), -1);
}
