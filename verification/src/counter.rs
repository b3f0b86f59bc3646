//! The counter that the handlers drive: its events, and what each does to
//! the count.

use vstd::prelude::*;

verus! {

/// What the user can ask of the counter.
#[derive(Clone, Copy, Debug, PartialEq, Eq, Structural)]
pub enum CounterEvent {
    Increase,
    Decrease,
}

/// What can happen in the application.
#[derive(Clone, Copy, Debug, PartialEq, Eq, Structural)]
pub enum AppEvent {
    Counter(CounterEvent),
}

impl CounterEvent {
    /// What the event adds to the count.
    pub open spec fn step(self) -> int {
        match self {
            CounterEvent::Increase => 1,
            CounterEvent::Decrease => -1,
        }
    }

    /// The count after the event, or `None` where that is no `i32`.
    pub fn apply(self, count: i32) -> (next: Option<i32>)
        ensures
            match next {
                Some(n) => n == count + self.step(),
                None => !(i32::MIN <= count + self.step() <= i32::MAX),
            },
    {
        match self {
            CounterEvent::Increase => if count < i32::MAX {
                Some(count + 1)
            } else {
                None
            },
            CounterEvent::Decrease => if count > i32::MIN {
                Some(count - 1)
            } else {
                None
            },
        }
    }
}

impl AppEvent {
    /// What the event adds to the count.
    pub open spec fn step(self) -> int {
        match self {
            AppEvent::Counter(event) => event.step(),
        }
    }

    /// The count after the event, or `None` where that is no `i32`.
    pub fn apply(self, count: i32) -> (next: Option<i32>)
        ensures
            match next {
                Some(n) => n == count + self.step(),
                None => !(i32::MIN <= count + self.step() <= i32::MAX),
            },
    {
        match self {
            AppEvent::Counter(event) => event.apply(count),
        }
    }
}

} // verus!
