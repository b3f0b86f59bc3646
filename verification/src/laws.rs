//! What holds of handlers made from one another.
//!
//! A transform is taken here as a function: `computes` says which one. What
//! a transform may return is known from its postcondition alone, so each law
//! has two halves. Whatever a call of the adapter ends in, a call of the
//! handler behind may end in it too; and the other way round for a payload
//! on which the transform is known to return.

use vstd::prelude::*;
use vstd::std_specs::cmp::PartialEqSpec;
use crate::handler::EventHandler;
use crate::outcome::{Delivery, Outcome, ReentrantInvocation};

verus! {

/// Whether `f` computes the function `model`: whatever it returns for `x` is
/// `model(x)`.
pub open spec fn computes<A, B, F: FnOnce(A) -> B>(f: F, model: spec_fn(A) -> B) -> bool {
    forall|x: A, y: B| #[trigger] call_ensures(f, (x,), y) ==> y == model(x)
}

/// Whether `outcome` is what a dropped payload ends in, or the failure.
pub open spec fn dropped_or_failed(outcome: Outcome) -> bool {
    outcome is Err || outcome == Ok::<Delivery, ReentrantInvocation>(Delivery::Dropped)
}

/// A clone is the handler it was cloned from: the two are equal, and a call
/// of either may end in what a call of the other may end in.
pub proof fn lemma_clone_is_the_handler<T: 'static>(
    handler: EventHandler<T>,
    copy: EventHandler<T>,
    value: T,
    outcome: Outcome,
)
    requires
        copy == handler,
    ensures
        copy.eq_spec(&handler),
        copy.responds(value, outcome) == handler.responds(value, outcome),
{
}

/// An adapter is another handler than the one it calls: the two are not
/// equal, whichever way they are compared.
pub proof fn lemma_adapter_is_another_handler<T: 'static>(
    target: EventHandler<T>,
    adapter: EventHandler<T>,
)
    requires
        adapter.depth() == target.depth() + 1,
    ensures
        adapter != target,
        !adapter.eq_spec(&target),
        !target.eq_spec(&adapter),
{
}

/// Mapping by `f` and then by `g` is mapping by `f` after `g`: a call of the
/// outer handler with `x` ends as a call of the first handler with
/// `f(g(x))`.
pub proof fn lemma_map_composes<T: 'static, U: 'static, V: 'static, F, G>(
    handler: EventHandler<T>,
    f: F,
    g: G,
    inner: EventHandler<U>,
    outer: EventHandler<V>,
    f_model: spec_fn(U) -> T,
    g_model: spec_fn(V) -> U,
    x: V,
    outcome: Outcome,
) where F: FnMut(U) -> T, G: FnMut(V) -> U
    requires
        inner.maps(handler, f),
        outer.maps(inner, g),
        computes(f, f_model),
        computes(g, g_model),
    ensures
        outer.responds(x, outcome) ==> handler.responds(f_model(g_model(x)), outcome),
        call_ensures(g, (x,), g_model(x)) && call_ensures(f, (g_model(x),), f_model(g_model(x)))
            ==> (handler.responds(f_model(g_model(x)), outcome) ==> outer.responds(x, outcome)),
{
    if outcome is Err {
        handler.lemma_failure_admitted(f_model(g_model(x)), outcome);
    }
}

/// A payload of which the transform makes nothing is dropped, and so the
/// handler behind is not called; a payload of which it makes `y` ends as a
/// call of the handler behind with `y`.
pub proof fn lemma_filter_map_drops_or_forwards<T: 'static, U: 'static, F>(
    handler: EventHandler<T>,
    transform: F,
    filtered: EventHandler<U>,
    model: spec_fn(U) -> Option<T>,
    x: U,
    outcome: Outcome,
) where F: Fn(U) -> Option<T>
    requires
        filtered.filter_maps(handler, transform),
        computes(transform, model),
    ensures
        match model(x) {
            None => {
                &&& filtered.responds(x, outcome) ==> dropped_or_failed(outcome)
                &&& call_ensures(transform, (x,), model(x)) ==> (dropped_or_failed(outcome)
                    ==> filtered.responds(x, outcome))
            },
            Some(y) => {
                &&& filtered.responds(x, outcome) ==> handler.responds(y, outcome)
                &&& call_ensures(transform, (x,), model(x)) ==> (handler.responds(y, outcome)
                    ==> filtered.responds(x, outcome))
            },
        },
{
    if outcome is Err {
        if let Some(y) = model(x) {
            handler.lemma_failure_admitted(y, outcome);
        }
    }
}

/// `None` is dropped, and so the handler behind is not called; `Some(v)`
/// ends as a call of the handler behind with what the transform makes of
/// `v`.
pub proof fn lemma_map_some_drops_or_forwards<T: 'static, U: 'static, F>(
    handler: EventHandler<T>,
    transform: F,
    unwrapped: EventHandler<Option<U>>,
    model: spec_fn(U) -> T,
    x: Option<U>,
    outcome: Outcome,
) where F: Fn(U) -> T
    requires
        unwrapped.maps_some(handler, transform),
        computes(transform, model),
    ensures
        match x {
            None => unwrapped.responds(x, outcome) <==> dropped_or_failed(outcome),
            Some(v) => {
                &&& unwrapped.responds(x, outcome) ==> handler.responds(model(v), outcome)
                &&& call_ensures(transform, (v,), model(v)) ==> (handler.responds(
                    model(v),
                    outcome,
                ) ==> unwrapped.responds(x, outcome))
            },
        },
{
    if let Some(v) = x {
        if outcome is Err {
            handler.lemma_failure_admitted(model(v), outcome);
        }
    }
}

} // verus!
