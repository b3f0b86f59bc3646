//! Shareable event handlers.
//!
//! An [`EventHandler`] is a handle to one callback. Any number of handles
//! share the callback, and adapters made from a handler (`map`, `filter_map`,
//! `map_some`) change the payload on its way to it. What a call may end in is
//! an [`Outcome`]; the relation `responds` of a handler says which outcomes a
//! call with which payload admits, and the contracts and laws are stated
//! over it.
//!
//! The callback is kept in a cell of `std`. What a cell holds is no part of
//! its value, so no contract speaks of it: a call hands what it found in the
//! cell to the functions of [`slot`], whose contracts say what is done with
//! each thing that can be found there.

pub mod callback;
pub mod counter;
pub mod handler;
pub mod laws;
pub mod outcome;
mod shared;
pub mod slot;

pub use crate::handler::EventHandler;
pub use crate::outcome::{Delivery, Outcome, ReentrantInvocation};
