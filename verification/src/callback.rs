//! The callbacks that a slot can hold: the one a handler was made from, and
//! the adapters that pass a payload on to another handler; and what each may
//! return.

use vstd::prelude::*;
use crate::handler::EventHandler;
use crate::outcome::{Delivery, Outcome, ReentrantInvocation};

verus! {

/// Whether `outcome` is what comes of handing `value` to `callback`: the
/// callback ran on it, and the payload counts as delivered.
pub open spec fn delivers<T, F: FnMut(T)>(callback: F, value: T, outcome: Outcome) -> bool {
    &&& outcome == Ok::<Delivery, ReentrantInvocation>(Delivery::Delivered)
    &&& call_ensures(callback, (value,), ())
}

/// Whether `outcome` is one that calling `target` with what `transform`
/// returns for `value` may end in.
pub open spec fn forwards<T: 'static, U, F: FnMut(U) -> T>(
    target: EventHandler<T>,
    transform: F,
    value: U,
    outcome: Outcome,
) -> bool {
    exists|t: T| #[trigger] call_ensures(transform, (value,), t) && target.responds(t, outcome)
}

/// Whether `outcome` is one that handing `value` to `transform` may end in,
/// where `target` is called with `t` if `transform` returns `Some(t)`, and
/// the payload is dropped if it returns `None`.
pub open spec fn forwards_some<T: 'static, U, F: Fn(U) -> Option<T>>(
    target: EventHandler<T>,
    transform: F,
    value: U,
    outcome: Outcome,
) -> bool {
    exists|made: Option<T>| #[trigger]
        call_ensures(transform, (value,), made) && match made {
            Some(t) => target.responds(t, outcome),
            None => outcome == Ok::<Delivery, ReentrantInvocation>(Delivery::Dropped),
        }
}

/// Whether `outcome` is one that unwrapping `value` may end in, where
/// `target` is called with what `transform` returns for the payload inside
/// `Some`, and `None` is dropped.
pub open spec fn forwards_inner<T: 'static, U, F: Fn(U) -> T>(
    target: EventHandler<T>,
    transform: F,
    value: Option<U>,
    outcome: Outcome,
) -> bool {
    match value {
        Some(u) => forwards(target, transform, u, outcome),
        None => outcome == Ok::<Delivery, ReentrantInvocation>(Delivery::Dropped),
    }
}

/// Something that can be invoked with a payload, any number of times, with
/// exclusive access each time.
trait Callback<T> {
    /// Whether `invoke` may be called with `value`.
    spec fn ready(&self, value: T) -> bool;

    /// Whether `outcome` is one that `invoke` may return for `value`.
    spec fn yields(&self, value: T, outcome: Outcome) -> bool;

    /// Runs the callback on `value`. What the callback accepts and what it may
    /// return are the same after the call as before it.
    fn invoke(&mut self, value: T) -> (outcome: Outcome)
        requires
            old(self).ready(value),
        ensures
            old(self).yields(value, outcome),
            forall|v: T| #[trigger] final(self).ready(v) == old(self).ready(v),
            forall|v: T, o: Outcome| #[trigger] final(self).yields(v, o) == old(self).yields(v, o),
    ;
}

/// The end of a chain: a plain callback, which consumes the payload.
struct Root<F> {
    callback: F,
}

impl<T, F: FnMut(T)> Callback<T> for Root<F> {
    spec fn ready(&self, value: T) -> bool {
        call_requires(self.callback, (value,))
    }

    spec fn yields(&self, value: T, outcome: Outcome) -> bool {
        delivers(self.callback, value, outcome)
    }

    fn invoke(&mut self, value: T) -> (outcome: Outcome) {
        (self.callback)(value);
        Ok(Delivery::Delivered)
    }
}

/// Passes on to `target` what `transform` makes of each payload.
#[verifier::reject_recursive_types(T)]
struct Mapped<T, F> {
    target: EventHandler<T>,
    transform: F,
}

impl<T: 'static, U, F: FnMut(U) -> T> Callback<U> for Mapped<T, F> {
    spec fn ready(&self, value: U) -> bool {
        call_requires(self.transform, (value,))
    }

    spec fn yields(&self, value: U, outcome: Outcome) -> bool {
        forwards(self.target, self.transform, value, outcome)
    }

    fn invoke(&mut self, value: U) -> (outcome: Outcome) {
        let payload = (self.transform)(value);
        self.target.call(payload)
    }
}

/// Passes on to `target` what `transform` makes of a payload, where it
/// makes anything of it, and drops the payload where it does not.
#[verifier::reject_recursive_types(T)]
struct Filtered<T, F> {
    target: EventHandler<T>,
    transform: F,
}

impl<T: 'static, U, F: Fn(U) -> Option<T>> Callback<U> for Filtered<T, F> {
    spec fn ready(&self, value: U) -> bool {
        call_requires(self.transform, (value,))
    }

    spec fn yields(&self, value: U, outcome: Outcome) -> bool {
        forwards_some(self.target, self.transform, value, outcome)
    }

    fn invoke(&mut self, value: U) -> (outcome: Outcome) {
        match (self.transform)(value) {
            Some(payload) => self.target.call(payload),
            None => Ok(Delivery::Dropped),
        }
    }
}

/// Passes on to `target` what `transform` makes of the payload inside `Some`,
/// and drops `None`.
#[verifier::reject_recursive_types(T)]
struct Unwrapped<T, F> {
    target: EventHandler<T>,
    transform: F,
}

impl<T: 'static, U, F: Fn(U) -> T> Callback<Option<U>> for Unwrapped<T, F> {
    spec fn ready(&self, value: Option<U>) -> bool {
        value matches Some(u) ==> call_requires(self.transform, (u,))
    }

    spec fn yields(&self, value: Option<U>, outcome: Outcome) -> bool {
        forwards_inner(self.target, self.transform, value, outcome)
    }

    fn invoke(&mut self, value: Option<U>) -> (outcome: Outcome) {
        match value {
            Some(inner) => {
                let payload = (self.transform)(inner);
                self.target.call(payload)
            },
            None => Ok(Delivery::Dropped),
        }
    }
}

/// A callback of any kind, with its kind forgotten.
#[verifier::reject_recursive_types(T)]
pub(crate) struct Held<T> {
    callback: Box<dyn Callback<T>>,
}

impl<T> Held<T> {
    /// Whether `invoke` may be called with `value`.
    pub(crate) closed spec fn ready(&self, value: T) -> bool {
        self.callback.ready(value)
    }

    /// Whether `outcome` is one that `invoke` may return for `value`.
    pub(crate) closed spec fn yields(&self, value: T, outcome: Outcome) -> bool {
        self.callback.yields(value, outcome)
    }

    /// Whether `other` accepts the same payloads and may return the same
    /// outcomes for each.
    pub(crate) open spec fn alike(&self, other: &Self) -> bool {
        &&& forall|v: T| #[trigger] self.ready(v) == other.ready(v)
        &&& forall|v: T, o: Outcome| #[trigger] self.yields(v, o) == other.yields(v, o)
    }

    /// Holds a plain callback.
    pub(crate) fn root<F: FnMut(T) + 'static>(callback: F) -> (held: Self)
        ensures
            forall|v: T| #[trigger] held.ready(v) == call_requires(callback, (v,)),
            forall|v: T, o: Outcome| #[trigger] held.yields(v, o) == delivers(callback, v, o),
    {
        Held { callback: Box::new(Root { callback }) }
    }

    /// Holds the adapter that passes on to `target` what `transform` makes
    /// of each payload.
    pub(crate) fn mapped<R: 'static, F: FnMut(T) -> R + 'static>(
        target: EventHandler<R>,
        transform: F,
    ) -> (held: Self)
        ensures
            forall|v: T| #[trigger] held.ready(v) == call_requires(transform, (v,)),
            forall|v: T, o: Outcome| #[trigger]
                held.yields(v, o) == forwards(target, transform, v, o),
    {
        Held { callback: Box::new(Mapped { target, transform }) }
    }

    /// Holds the adapter that passes on to `target` what `transform` makes
    /// of a payload, and drops the payloads of which it makes nothing.
    pub(crate) fn filtered<R: 'static, F: (Fn(T) -> Option<R>) + 'static>(
        target: EventHandler<R>,
        transform: F,
    ) -> (held: Self)
        ensures
            forall|v: T| #[trigger] held.ready(v) == call_requires(transform, (v,)),
            forall|v: T, o: Outcome| #[trigger]
                held.yields(v, o) == forwards_some(target, transform, v, o),
    {
        Held { callback: Box::new(Filtered { target, transform }) }
    }

    /// Runs the callback on `value`.
    pub(crate) fn invoke(&mut self, value: T) -> (outcome: Outcome)
        requires
            old(self).ready(value),
        ensures
            old(self).yields(value, outcome),
            final(self).alike(old(self)),
    {
        self.callback.invoke(value)
    }
}

impl<U> Held<Option<U>> {
    /// Holds the adapter that passes on to `target` what `transform` makes
    /// of the payload inside `Some`, and drops `None`.
    pub(crate) fn unwrapped<R: 'static, F: (Fn(U) -> R) + 'static>(
        target: EventHandler<R>,
        transform: F,
    ) -> (held: Self)
        ensures
            forall|v: Option<U>| #[trigger]
                held.ready(v) == (v matches Some(u) ==> call_requires(transform, (u,))),
            forall|v: Option<U>, o: Outcome| #[trigger]
                held.yields(v, o) == forwards_inner(target, transform, v, o),
    {
        Held { callback: Box::new(Unwrapped { target, transform }) }
    }
}

} // verus!
