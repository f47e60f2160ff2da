//! The shared cell of the standard library and its two guards, as far as
//! this library relies on them.
//!
//! A cell keeps count of its guards at run time and refuses a guard that
//! the count forbids. The count changes behind a shared reference, so it is
//! no part of the cell's value in a contract, and the functions below claim
//! nothing of what a cell or a guard holds, nor of when a guard is granted.
//! Only calls that cannot panic are made.

use vstd::prelude::*;

verus! {

/// `core::cell::RefCell`, taken as an opaque value: two cells are equal in a
/// contract only where they are the same cell.
#[verifier::external_type_specification]
#[verifier::external_body]
#[verifier::reject_recursive_types(T)]
pub struct ExRefCell<T: ?Sized>(core::cell::RefCell<T>);

/// `core::cell::Ref`, the read guard of a cell, taken as an opaque value.
#[verifier::external_type_specification]
#[verifier::external_body]
#[verifier::reject_recursive_types(T)]
pub struct ExRef<'b, T: ?Sized>(core::cell::Ref<'b, T>);

/// `core::cell::RefMut`, the write guard of a cell, taken as an opaque value.
#[verifier::external_type_specification]
#[verifier::external_body]
#[verifier::reject_recursive_types(T)]
pub struct ExRefMut<'b, T: ?Sized + 'b>(core::cell::RefMut<'b, T>);

/// `core::cell::BorrowError`: a cell's refusal of a read guard.
#[verifier::external_type_specification]
#[verifier::external_body]
pub struct ExBorrowError(core::cell::BorrowError);

/// `core::cell::BorrowMutError`: a cell's refusal of a write guard.
#[verifier::external_type_specification]
#[verifier::external_body]
pub struct ExBorrowMutError(core::cell::BorrowMutError);

/// `RefCell::try_borrow`: a read guard of `cell`, or the cell's refusal,
/// which comes while a write guard of `cell` is alive. The call does not
/// panic. Which of the two comes back depends on the guards that are alive,
/// so nothing is claimed of the result.
#[verifier::external_body]
pub(crate) fn cell_try_borrow<'b, T>(cell: &'b core::cell::RefCell<T>) -> Result<
    core::cell::Ref<'b, T>,
    core::cell::BorrowError,
> {
    cell.try_borrow()
}

/// `RefCell::try_borrow_mut`: a write guard of `cell`, or the cell's refusal,
/// which comes while any guard of `cell` is alive. The call does not panic.
/// Which of the two comes back depends on the guards that are alive, so
/// nothing is claimed of the result.
#[verifier::external_body]
pub(crate) fn cell_try_borrow_mut<'b, T>(cell: &'b core::cell::RefCell<T>) -> Result<
    core::cell::RefMut<'b, T>,
    core::cell::BorrowMutError,
> {
    cell.try_borrow_mut()
}

/// `Deref::deref` of `Ref`: the value behind a read guard. Nothing is claimed
/// of the value.
#[verifier::external_body]
pub(crate) fn guard_get<'g, 'b, T>(guard: &'g core::cell::Ref<'b, T>) -> &'g T {
    core::ops::Deref::deref(guard)
}

/// `Deref::deref` of `RefMut`: the value behind a write guard. Nothing is
/// claimed of the value.
#[verifier::external_body]
pub(crate) fn guard_mut_get<'g, 'b, T>(guard: &'g core::cell::RefMut<'b, T>) -> &'g T {
    core::ops::Deref::deref(guard)
}

/// `DerefMut::deref_mut` of `RefMut`: the place behind a write guard. Nothing
/// is claimed of the value found there, nor of the guard afterwards.
#[verifier::external_body]
pub(crate) fn guard_mut_get_mut<'g, 'b, T>(guard: &'g mut core::cell::RefMut<'b, T>) -> &'g mut T {
    core::ops::DerefMut::deref_mut(guard)
}

} // verus!
