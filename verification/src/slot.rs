//! The slot that a handler's callback is kept in, and what a call does with
//! what it finds there.

use std::cell::Cell;
use std::rc::Rc;
use vstd::prelude::*;
use crate::callback::{delivers, forwards, forwards_inner, forwards_some, Held};
use crate::handler::EventHandler;
use crate::outcome::{Delivery, Outcome, ReentrantInvocation};
use crate::shared::same_allocation;

verus! {

/// What the calls of one handler may end in, and how far the handler stands
/// from the callback at the end of its chain. A rule is made with the
/// handler, and is the same for as long as the handler is there.
#[verifier::reject_recursive_types(T)]
pub struct Rule<T> {
    relation: Ghost<spec_fn(T, Outcome) -> bool>,
    depth: Ghost<nat>,
}

impl<T> Rule<T> {
    /// Whether `outcome` is one that the rule admits for `value`.
    pub closed spec fn admits(&self, value: T, outcome: Outcome) -> bool {
        (self.relation@)(value, outcome)
    }

    /// The number of adapters that a payload passes on its way to the
    /// callback at the end of the chain.
    pub closed spec fn depth(&self) -> nat {
        self.depth@
    }
}

/// A callback together with the rule that it keeps: it accepts every payload,
/// and returns only what the rule admits.
#[verifier::reject_recursive_types(T)]
pub struct Bound<T> {
    held: Held<T>,
    rule: Rc<Rule<T>>,
}

impl<T: 'static> Bound<T> {
    #[verifier::type_invariant]
    spec fn keeps_its_rule(&self) -> bool {
        &&& forall|v: T| #[trigger] self.held.ready(v)
        &&& forall|v: T, o: Outcome| #[trigger] self.held.yields(v, o) ==> self.rule.admits(v, o)
    }

    /// The rule that the callback keeps.
    pub closed spec fn rule(&self) -> Rule<T> {
        *self.rule
    }

    /// A plain callback, which is to accept every payload, under the rule
    /// that each payload is delivered to it.
    pub fn root<F: FnMut(T) + 'static>(callback: F) -> (bound: Self)
        requires
            forall|v: T| call_requires(callback, (v,)),
        ensures
            forall|v: T, o: Outcome| #[trigger]
                bound.rule().admits(v, o) <==> delivers(callback, v, o),
            bound.rule().depth() == 0,
    {
        let rule = Rc::new(
            Rule {
                relation: Ghost(|v: T, o: Outcome| delivers(callback, v, o)),
                depth: Ghost(0),
            },
        );
        Bound { held: Held::root(callback), rule }
    }

    /// The adapter that passes on to `target` what `transform` makes of each
    /// payload.
    pub fn mapped<R: 'static, F: FnMut(T) -> R + 'static>(
        target: EventHandler<R>,
        transform: F,
    ) -> (bound: Self)
        requires
            forall|v: T| call_requires(transform, (v,)),
        ensures
            forall|v: T, o: Outcome| #[trigger]
                bound.rule().admits(v, o) <==> forwards(target, transform, v, o),
            bound.rule().depth() == target.depth() + 1,
    {
        let rule = Rc::new(
            Rule {
                relation: Ghost(|v: T, o: Outcome| forwards(target, transform, v, o)),
                depth: Ghost(target.depth() + 1),
            },
        );
        Bound { held: Held::mapped(target, transform), rule }
    }

    /// The adapter that passes on to `target` what `transform` makes of a
    /// payload, and drops the payloads of which it makes nothing.
    pub fn filtered<R: 'static, F: (Fn(T) -> Option<R>) + 'static>(
        target: EventHandler<R>,
        transform: F,
    ) -> (bound: Self)
        requires
            forall|v: T| call_requires(transform, (v,)),
        ensures
            forall|v: T, o: Outcome| #[trigger]
                bound.rule().admits(v, o) <==> forwards_some(target, transform, v, o),
            bound.rule().depth() == target.depth() + 1,
    {
        let rule = Rc::new(
            Rule {
                relation: Ghost(|v: T, o: Outcome| forwards_some(target, transform, v, o)),
                depth: Ghost(target.depth() + 1),
            },
        );
        Bound { held: Held::filtered(target, transform), rule }
    }

    /// Another pointer to the rule that the callback keeps.
    pub fn rule_pointer(&self) -> (rule: Rc<Rule<T>>)
        ensures
            *rule == self.rule(),
    {
        self.rule.clone()
    }

    /// Whether the callback is known to keep the rule that `rule` points to:
    /// it is, where it points to it itself.
    pub fn vouched_by(&self, rule: &Rc<Rule<T>>) -> (vouched: bool)
        ensures
            vouched ==> self.rule() == **rule,
    {
        same_allocation(&self.rule, rule)
    }

    /// Runs the callback on `value`, and hands it back under its rule.
    pub fn run(self, value: T) -> (done: (Self, Outcome))
        ensures
            self.rule().admits(value, done.1),
            done.0.rule() == self.rule(),
    {
        proof {
            use_type_invariant(&self);
        }
        let Bound { held, rule } = self;
        let mut held = held;
        let outcome = held.invoke(value);
        (Bound { held, rule }, outcome)
    }
}

impl<U: 'static> Bound<Option<U>> {
    /// The adapter that passes on to `target` what `transform` makes of the
    /// payload inside `Some`, and drops `None`.
    pub fn unwrapped<R: 'static, F: (Fn(U) -> R) + 'static>(
        target: EventHandler<R>,
        transform: F,
    ) -> (bound: Self)
        requires
            forall|u: U| call_requires(transform, (u,)),
        ensures
            forall|v: Option<U>, o: Outcome| #[trigger]
                bound.rule().admits(v, o) <==> forwards_inner(target, transform, v, o),
            bound.rule().depth() == target.depth() + 1,
    {
        let rule = Rc::new(
            Rule {
                relation: Ghost(|v: Option<U>, o: Outcome| forwards_inner(target, transform, v, o)),
                depth: Ghost(target.depth() + 1),
            },
        );
        Bound { held: Held::unwrapped(target, transform), rule }
    }
}

/// What a slot holds.
#[verifier::reject_recursive_types(T)]
pub enum Content<T> {
    /// The callback, which is not executing.
    Idle(Bound<T>),
    /// Nothing: the callback is executing.
    Executing,
    /// Nothing: the callback is executing, and a call was refused meanwhile.
    Refused,
}

impl<T: 'static> Content<T> {
    /// Whether this is a callback that is known to keep the rule that `rule`
    /// points to.
    pub fn vouched_by(&self, rule: &Rc<Rule<T>>) -> (vouched: bool)
        ensures
            vouched ==> (*self matches Content::Idle(bound) && bound.rule() == **rule),
    {
        match self {
            Content::Idle(bound) => bound.vouched_by(rule),
            _ => false,
        }
    }
}

/// The place of one callback, with the rule of the handler whose slot it is.
#[verifier::reject_recursive_types(T)]
pub(crate) struct Slot<T> {
    pub(crate) cell: Cell<Content<T>>,
    pub(crate) rule: Rc<Rule<T>>,
}

/// Does with `value` what a call does once it has taken `found` out of the
/// slot, where `vouched` says whether what it found is known to keep the
/// slot's rule.
///
/// A callback that was found and is vouched for is run once, and handed back
/// to be put into the slot again. One that is not vouched for is handed back
/// without being run, and the call fails. Where no callback was found, one
/// is executing already: nothing is run, the call fails, and what goes into
/// the slot is the mark of a refused call.
pub fn run_found<T: 'static>(found: Content<T>, vouched: bool, value: T) -> (done: (
    Content<T>,
    Outcome,
))
    ensures
        match found {
            Content::Idle(bound) => {
                &&& done.0 matches Content::Idle(kept) && kept.rule() == bound.rule()
                &&& vouched ==> bound.rule().admits(value, done.1)
                &&& !vouched ==> done.1 == Err::<Delivery, ReentrantInvocation>(
                    ReentrantInvocation,
                )
            },
            _ => done.0 is Refused && done.1 == Err::<Delivery, ReentrantInvocation>(
                ReentrantInvocation,
            ),
        },
{
    match found {
        Content::Idle(bound) => {
            if vouched {
                let (kept, outcome) = bound.run(value);
                (Content::Idle(kept), outcome)
            } else {
                (Content::Idle(bound), Err(ReentrantInvocation))
            }
        },
        _ => (Content::Refused, Err(ReentrantInvocation)),
    }
}

/// What a call ends in, where `outcome` is what came of its turn and
/// `displaced` is what the slot held when the call put back what the turn
/// handed back. The mark of a refused call there makes the call fail: a call
/// was made on the handler while its callback was executing, and whoever made
/// it may have let the failure pass.
pub fn settle<T>(displaced: Content<T>, outcome: Outcome) -> (settled: Outcome)
    ensures
        settled == if displaced is Refused {
            Err::<Delivery, ReentrantInvocation>(ReentrantInvocation)
        } else {
            outcome
        },
{
    match displaced {
        Content::Refused => Err(ReentrantInvocation),
        _ => outcome,
    }
}

} // verus!
