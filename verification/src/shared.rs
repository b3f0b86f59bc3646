//! Shared, mutable state. These are the operations of `std::cell::Cell` and
//! `std::rc::Rc` that the handler needs and that come without a
//! specification; what is said of them here is taken on trust.

use std::cell::Cell;
use std::rc::Rc;
use vstd::prelude::*;
use crate::slot::Slot;

verus! {

/// `std::cell::Cell`. Nothing is said of what a cell holds: that may change
/// behind a shared reference, so it is no part of the cell's value.
#[verifier::external_type_specification]
#[verifier::external_body]
#[verifier::reject_recursive_types(T)]
pub struct ExCell<T: ?Sized>(Cell<T>);

/// `Cell::new`: a cell that holds `content`.
#[verifier::external_body]
pub(crate) fn cell_new<X>(content: X) -> (cell: Cell<X>) {
    Cell::new(content)
}

/// `Cell::replace`: puts `content` into the cell and returns what the cell
/// held. Nothing is promised of what that is.
#[verifier::external_body]
pub(crate) fn cell_swap<X>(cell: &Cell<X>, content: X) -> (previous: X) {
    cell.replace(content)
}

/// `Rc::ptr_eq`, of any two pointers: whether they point to one allocation.
/// Where they do, what they point to is one value.
#[verifier::external_body]
pub(crate) fn same_allocation<X>(left: &Rc<X>, right: &Rc<X>) -> (same: bool)
    ensures
        same ==> *left == *right,
{
    Rc::ptr_eq(left, right)
}

/// `Rc::ptr_eq`, of two pointers to slots: whether they point to one slot.
/// A slot holds a cell, and in specifications a cell is equal to itself and
/// to no other cell, so two slots in two allocations are not equal there.
#[verifier::external_body]
pub(crate) fn same_slot<T>(left: &Rc<Slot<T>>, right: &Rc<Slot<T>>) -> (same: bool)
    ensures
        same == (*left == *right),
{
    Rc::ptr_eq(left, right)
}

} // verus!
