//! The handler: a handle to one shared callback.

use std::rc::Rc;
use vstd::prelude::*;
use vstd::std_specs::cmp::PartialEqSpec;
use crate::callback::{delivers, forwards, forwards_inner, forwards_some};
use crate::outcome::Outcome;
use crate::shared::{cell_new, cell_swap, same_slot};
use crate::slot::{run_found, settle, Bound, Content, Slot};

verus! {

/// A handle to a callback over payloads of type `T`.
///
/// Clones share the callback. In specifications two handles are equal exactly
/// when they share it, and `==` in executable code decides just that.
///
/// The callback runs with exclusive access. While it runs its slot is empty,
/// and a call that finds the slot empty fails with
/// [`ReentrantInvocation`](crate::outcome::ReentrantInvocation) without
/// running anything. It leaves a mark in the slot, and the call whose
/// callback is executing fails by that mark when the callback returns: the
/// failure reaches whoever called the handler first, whatever the callback
/// made of it.
///
/// The callback is dropped with the last handle. A callback that unwinds is
/// dropped at once, and leaves the slot empty for good.
#[verifier::reject_recursive_types(T)]
pub struct EventHandler<T> {
    slot: Rc<Slot<T>>,
}

impl<T: 'static> EventHandler<T> {
    /// Whether `outcome` is one that a call with `value` may end in.
    ///
    /// Every handler admits the failure for every payload: whether a callback
    /// is executing is no part of a handle's value.
    pub closed spec fn responds(&self, value: T, outcome: Outcome) -> bool {
        outcome is Err || self.slot.rule.admits(value, outcome)
    }

    /// Whether this handler does what a handler made of `callback` does: a
    /// call hands the payload to `callback`.
    pub open spec fn wraps<F: FnMut(T)>(&self, callback: F) -> bool {
        forall|v: T, o: Outcome| #[trigger]
            self.responds(v, o) <==> (o is Err || delivers(callback, v, o))
    }

    /// Whether this handler does what `target.filter_map(transform)` does: a
    /// call with `u` ends as a call of `target` with `r` where `transform`
    /// returns `Some(r)` for `u`, and drops the payload where it returns
    /// `None`.
    pub open spec fn filter_maps<R: 'static, F: Fn(T) -> Option<R>>(
        &self,
        target: EventHandler<R>,
        transform: F,
    ) -> bool {
        forall|u: T, o: Outcome| #[trigger]
            self.responds(u, o) <==> (o is Err || forwards_some(target, transform, u, o))
    }

    /// Whether this handler does what `target.map(transform)` does: a call
    /// with `u` ends as a call of `target` with what `transform` returns
    /// for `u`.
    pub open spec fn maps<R: 'static, F: FnMut(T) -> R>(
        &self,
        target: EventHandler<R>,
        transform: F,
    ) -> bool {
        forall|u: T, o: Outcome| #[trigger]
            self.responds(u, o) <==> (o is Err || forwards(target, transform, u, o))
    }

    /// The number of adapters that a payload passes on its way to the
    /// callback at the end of the chain.
    pub closed spec fn depth(&self) -> nat {
        self.slot.rule.depth()
    }

    /// A handler with a slot of its own that holds `bound`, under the rule
    /// that `bound` keeps.
    fn holding(bound: Bound<T>) -> (handler: Self)
        ensures
            forall|v: T, o: Outcome| #[trigger]
                handler.responds(v, o) <==> (o is Err || bound.rule().admits(v, o)),
            handler.depth() == bound.rule().depth(),
    {
        let rule = bound.rule_pointer();
        EventHandler { slot: Rc::new(Slot { cell: cell_new(Content::Idle(bound)), rule }) }
    }

    /// Every handler admits the failure, whatever the payload.
    pub proof fn lemma_failure_admitted(&self, value: T, outcome: Outcome)
        requires
            outcome is Err,
        ensures
            self.responds(value, outcome),
    {
    }

    /// Makes a handler of `callback`, which is to accept every payload.
    pub fn new<F>(callback: F) -> (handler: Self) where F: FnMut(T) + 'static
        requires
            forall|v: T| call_requires(callback, (v,)),
        ensures
            handler.wraps(callback),
            handler.depth() == 0,
    {
        Self::holding(Bound::root(callback))
    }

    /// Invokes the callback with `value`, unless it is executing already.
    ///
    /// The call empties the slot, does with what it found what [`run_found`]
    /// says, puts back what that hands back, and ends in what [`settle`]
    /// makes of what it displaced there.
    pub fn call(&self, value: T) -> (outcome: Outcome)
        ensures
            self.responds(value, outcome),
    {
        let found = cell_swap(&self.slot.cell, Content::Executing);
        let vouched = found.vouched_by(&self.slot.rule);
        let (kept, outcome) = run_found(found, vouched, value);
        let displaced = cell_swap(&self.slot.cell, kept);
        settle(displaced, outcome)
    }

    /// A handler that drops the payloads of which `transform` makes nothing,
    /// and calls this one with what it makes of the others.
    pub fn filter_map<U, F>(self, transform: F) -> (filtered: EventHandler<U>) where
        U: 'static,
        F: (Fn(U) -> Option<T>) + 'static,

        requires
            forall|u: U| call_requires(transform, (u,)),
        ensures
            filtered.filter_maps(self, transform),
            filtered.depth() == self.depth() + 1,
    {
        EventHandler::holding(Bound::filtered(self, transform))
    }

    /// A handler over optional payloads that drops `None`, and calls this one
    /// with what `transform` makes of the payload inside `Some`.
    pub fn map_some<U, F>(self, transform: F) -> (unwrapped: EventHandler<Option<U>>) where
        U: 'static,
        F: (Fn(U) -> T) + 'static,

        requires
            forall|u: U| call_requires(transform, (u,)),
        ensures
            unwrapped.maps_some(self, transform),
            unwrapped.depth() == self.depth() + 1,
    {
        EventHandler::holding(Bound::unwrapped(self, transform))
    }

    /// A handler that calls this one with what `transform` makes of each
    /// payload. The transform runs with exclusive access, and may keep state.
    pub fn map<U, F>(self, transform: F) -> (mapped: EventHandler<U>) where
        U: 'static,
        F: FnMut(U) -> T + 'static,

        requires
            forall|u: U| call_requires(transform, (u,)),
        ensures
            mapped.maps(self, transform),
            mapped.depth() == self.depth() + 1,
    {
        EventHandler::holding(Bound::mapped(self, transform))
    }
}

impl<U: 'static> EventHandler<Option<U>> {
    /// Whether this handler does what `target.map_some(transform)` does: a
    /// call with `Some(u)` ends as a call of `target` with what `transform`
    /// returns for `u`, and a call with `None` drops the payload.
    pub open spec fn maps_some<R: 'static, F: Fn(U) -> R>(
        &self,
        target: EventHandler<R>,
        transform: F,
    ) -> bool {
        forall|v: Option<U>, o: Outcome| #[trigger]
            self.responds(v, o) <==> (o is Err || forwards_inner(target, transform, v, o))
    }
}

impl<T> Clone for EventHandler<T> {
    /// Another handle to the same callback.
    fn clone(&self) -> (copy: Self)
        ensures
            copy == *self,
            copy.eq_spec(self),
    {
        EventHandler { slot: self.slot.clone() }
    }
}

impl<T> PartialEq for EventHandler<T> {
    /// Whether the two handles share a callback.
    fn eq(&self, other: &Self) -> (same: bool) {
        same_slot(&self.slot, &other.slot)
    }
}

impl<T> vstd::std_specs::cmp::PartialEqSpecImpl for EventHandler<T> {
    open spec fn obeys_eq_spec() -> bool {
        true
    }

    open spec fn eq_spec(&self, other: &Self) -> bool {
        *self == *other
    }
}

} // verus!
