//! The two views of a container: [`Reference`] reads, [`ReferenceMut`] reads
//! and writes.
//!
//! A view holds either a plain reference or a guard of a shared cell. What a
//! plain reference points to is part of the view's value, and the contracts
//! below state it. What lies behind a guard is known to the cell alone: of
//! such a view the contracts state which kind it is, and no more.

use crate::cell::guard_get;
use crate::cell::guard_mut_get;
use crate::cell::guard_mut_get_mut;
use core::cell::BorrowError;
use core::cell::BorrowMutError;
use core::cell::Ref;
use core::cell::RefMut;
use vstd::prelude::*;
use vstd::std_specs::convert::FromSpecImpl;

verus! {

/// Read access to the value of a container.
#[verifier::reject_recursive_types(T)]
pub enum Reference<'a, T> {
    /// A plain reference to the value.
    Borrowed(&'a T),
    /// A read guard of the cell that holds the value.
    RefCell(Ref<'a, T>),
    /// A read guard that is kept elsewhere.
    RefCellRef(&'a Ref<'a, T>),
}

/// Write access to the value of a container.
#[verifier::reject_recursive_types(T)]
pub enum ReferenceMut<'a, T> {
    /// A plain mutable reference to the value.
    Borrowed(&'a mut T),
    /// A write guard of the cell that holds the value.
    RefCell(RefMut<'a, T>),
    /// A write guard that is kept elsewhere.
    RefCellRef(&'a mut RefMut<'a, T>),
}

impl<'a, T> Reference<'a, T> {
    /// The value that the view reads, where it holds a plain reference.
    pub open spec fn direct(self) -> Option<T> {
        match self {
            Reference::Borrowed(value) => Some(*value),
            _ => None,
        }
    }
}

impl<'a, T> ReferenceMut<'a, T> {
    /// The value that the view reads now, where it holds a plain reference.
    pub open spec fn direct(self) -> Option<T> {
        match self {
            ReferenceMut::Borrowed(place) => Some(*place),
            _ => None,
        }
    }
}

/// The read view that a cell's answer to `try_borrow` makes: a view through
/// the guard where one was granted, none where the cell refused.
pub fn read_view_of<'a, T>(answer: Result<Ref<'a, T>, BorrowError>) -> (view: Option<
    Reference<'a, T>,
>)
    ensures
        view == match answer {
            Ok(guard) => Some(Reference::RefCell(guard)),
            Err(_) => None::<Reference<'a, T>>,
        },
{
    match answer {
        Ok(guard) => Some(Reference::RefCell(guard)),
        Err(_) => None,
    }
}

/// The write view that a cell's answer to `try_borrow_mut` makes: a view
/// through the guard where one was granted, none where the cell refused.
pub fn write_view_of<'a, T>(answer: Result<RefMut<'a, T>, BorrowMutError>) -> (view: Option<
    ReferenceMut<'a, T>,
>)
    ensures
        view == match answer {
            Ok(guard) => Some(ReferenceMut::RefCell(guard)),
            Err(_) => None::<ReferenceMut<'a, T>>,
        },
{
    match answer {
        Ok(guard) => Some(ReferenceMut::RefCell(guard)),
        Err(_) => None,
    }
}

impl<'a, T> core::ops::Deref for Reference<'a, T> {
    type Target = T;

    /// The value behind the view.
    fn deref(&self) -> (value: &T)
        ensures
            self.direct() matches Some(held) ==> *value == held,
    {
        match self {
            Reference::Borrowed(value) => value,
            Reference::RefCell(guard) => guard_get(guard),
            Reference::RefCellRef(guard) => guard_get(*guard),
        }
    }
}

impl<'a, T> Reference<'a, T> {
    /// The value behind the view.
    #[inline]
    pub fn borrow(&self) -> (value: &T)
        ensures
            self.direct() matches Some(held) ==> *value == held,
    {
        core::ops::Deref::deref(self)
    }
}

impl<'a, T> core::borrow::Borrow<T> for Reference<'a, T> {
    /// The value behind the view, as the inherent `borrow` gives it.
    #[inline]
    fn borrow(&self) -> &T {
        core::ops::Deref::deref(self)
    }
}

impl<'a, T> AsRef<T> for Reference<'a, T> {
    /// The value behind the view.
    #[inline]
    fn as_ref(&self) -> (value: &T)
        ensures
            self.direct() matches Some(held) ==> *value == held,
    {
        core::ops::Deref::deref(self)
    }
}

impl<'a, T> From<&'a T> for Reference<'a, T> {
    /// A view that reads `value` in place.
    #[inline]
    fn from(value: &'a T) -> (view: Self) {
        Reference::Borrowed(value)
    }
}

impl<'a, T> FromSpecImpl<&'a T> for Reference<'a, T> {
    open spec fn obeys_from_spec() -> bool {
        true
    }

    open spec fn from_spec(value: &'a T) -> Self {
        Reference::Borrowed(value)
    }
}

impl<'a, T> From<Ref<'a, T>> for Reference<'a, T> {
    /// A view that reads through the guard `value`, and keeps it.
    #[inline]
    fn from(value: Ref<'a, T>) -> (view: Self) {
        Reference::RefCell(value)
    }
}

impl<'a, T> FromSpecImpl<Ref<'a, T>> for Reference<'a, T> {
    open spec fn obeys_from_spec() -> bool {
        true
    }

    open spec fn from_spec(value: Ref<'a, T>) -> Self {
        Reference::RefCell(value)
    }
}

impl<'a, T> From<&'a Ref<'a, T>> for Reference<'a, T> {
    /// A view that reads through a guard that is kept elsewhere.
    #[inline]
    fn from(value: &'a Ref<'a, T>) -> (view: Self) {
        Reference::RefCellRef(value)
    }
}

impl<'a, T> FromSpecImpl<&'a Ref<'a, T>> for Reference<'a, T> {
    open spec fn obeys_from_spec() -> bool {
        true
    }

    open spec fn from_spec(value: &'a Ref<'a, T>) -> Self {
        Reference::RefCellRef(value)
    }
}

impl<'a, T> core::ops::Deref for ReferenceMut<'a, T> {
    type Target = T;

    /// The value behind the view.
    fn deref(&self) -> (value: &T)
        ensures
            self.direct() matches Some(held) ==> *value == held,
    {
        match self {
            ReferenceMut::Borrowed(value) => value,
            ReferenceMut::RefCell(guard) => guard_mut_get(guard),
            ReferenceMut::RefCellRef(guard) => guard_mut_get(guard),
        }
    }
}

impl<'a, T> core::ops::DerefMut for ReferenceMut<'a, T> {
    /// The place behind the view.
    ///
    /// A view that holds a plain reference lends out the place it points
    /// to: the place is handed over with the value it has, the view then
    /// reads what the loan leaves behind, and what the view itself leaves
    /// behind is what it would have left before. A view that holds a guard
    /// stays a view of that kind.
    fn deref_mut(&mut self) -> (place: &mut T)
        ensures
            match *old(self) {
                ReferenceMut::Borrowed(held) => {
                    &&& *place == *held
                    &&& *final(self) matches ReferenceMut::Borrowed(after)
                    &&& *after == *final(place)
                    &&& *final(after) == *final(held)
                },
                ReferenceMut::RefCell(_) => *final(self) is RefCell,
                ReferenceMut::RefCellRef(_) => *final(self) is RefCellRef,
            },
    {
        match self {
            ReferenceMut::Borrowed(value) => value,
            ReferenceMut::RefCell(guard) => guard_mut_get_mut(guard),
            ReferenceMut::RefCellRef(guard) => guard_mut_get_mut(guard),
        }
    }
}

impl<'a, T> ReferenceMut<'a, T> {
    /// The value behind the view.
    #[inline]
    pub fn borrow(&self) -> (value: &T)
        ensures
            self.direct() matches Some(held) ==> *value == held,
    {
        core::ops::Deref::deref(self)
    }

    /// The place behind the view.
    #[inline]
    pub fn borrow_mut(&mut self) -> (place: &mut T)
        ensures
            match *old(self) {
                ReferenceMut::Borrowed(held) => {
                    &&& *place == *held
                    &&& *final(self) matches ReferenceMut::Borrowed(after)
                    &&& *after == *final(place)
                    &&& *final(after) == *final(held)
                },
                ReferenceMut::RefCell(_) => *final(self) is RefCell,
                ReferenceMut::RefCellRef(_) => *final(self) is RefCellRef,
            },
    {
        core::ops::DerefMut::deref_mut(self)
    }
}

impl<'a, T> core::borrow::Borrow<T> for ReferenceMut<'a, T> {
    /// The value behind the view, as the inherent `borrow` gives it.
    #[inline]
    fn borrow(&self) -> &T {
        core::ops::Deref::deref(self)
    }
}

impl<'a, T> core::borrow::BorrowMut<T> for ReferenceMut<'a, T> {
    /// The place behind the view, as the inherent `borrow_mut` gives it.
    #[inline]
    fn borrow_mut(&mut self) -> &mut T {
        core::ops::DerefMut::deref_mut(self)
    }
}

impl<'a, T> AsRef<T> for ReferenceMut<'a, T> {
    /// The value behind the view.
    #[inline]
    fn as_ref(&self) -> (value: &T)
        ensures
            self.direct() matches Some(held) ==> *value == held,
    {
        core::ops::Deref::deref(self)
    }
}

impl<'a, T> AsMut<T> for ReferenceMut<'a, T> {
    /// The place behind the view.
    #[inline]
    fn as_mut(&mut self) -> (place: &mut T)
        ensures
            match *old(self) {
                ReferenceMut::Borrowed(held) => {
                    &&& *place == *held
                    &&& *final(self) matches ReferenceMut::Borrowed(after)
                    &&& *after == *final(place)
                    &&& *final(after) == *final(held)
                },
                ReferenceMut::RefCell(_) => *final(self) is RefCell,
                ReferenceMut::RefCellRef(_) => *final(self) is RefCellRef,
            },
    {
        core::ops::DerefMut::deref_mut(self)
    }
}

impl<'a, T> From<&'a mut T> for ReferenceMut<'a, T> {
    /// A view of the place that `value` points to. The view borrows the place
    /// anew: it reads what `value` read, and what it leaves behind is what
    /// `value` leaves behind.
    #[inline]
    fn from(value: &'a mut T) -> (view: Self)
        ensures
            view matches ReferenceMut::Borrowed(place) && *place == *old(value) && *final(place)
                == *final(value),
    {
        ReferenceMut::Borrowed(value)
    }
}

impl<'a, T> FromSpecImpl<&'a mut T> for ReferenceMut<'a, T> {
    /// The view holds a new borrow of the place, not `value` itself, so the
    /// result is stated on `from`.
    open spec fn obeys_from_spec() -> bool {
        false
    }

    open spec fn from_spec(value: &'a mut T) -> Self {
        ReferenceMut::Borrowed(value)
    }
}

impl<'a, T> From<RefMut<'a, T>> for ReferenceMut<'a, T> {
    /// A view that writes through the guard `value`, and keeps it.
    #[inline]
    fn from(value: RefMut<'a, T>) -> (view: Self) {
        ReferenceMut::RefCell(value)
    }
}

impl<'a, T> FromSpecImpl<RefMut<'a, T>> for ReferenceMut<'a, T> {
    open spec fn obeys_from_spec() -> bool {
        true
    }

    open spec fn from_spec(value: RefMut<'a, T>) -> Self {
        ReferenceMut::RefCell(value)
    }
}

impl<'a, T> From<&'a mut RefMut<'a, T>> for ReferenceMut<'a, T> {
    /// A view through a write guard that is kept elsewhere. The view borrows
    /// the guard anew: it holds the guard that `value` pointed to, and the
    /// guard that it leaves behind is the one that `value` leaves behind.
    #[inline]
    fn from(value: &'a mut RefMut<'a, T>) -> (view: Self)
        ensures
            view matches ReferenceMut::RefCellRef(guard) && *guard == *old(value) && *final(guard)
                == *final(value),
    {
        ReferenceMut::RefCellRef(value)
    }
}

impl<'a, T> FromSpecImpl<&'a mut RefMut<'a, T>> for ReferenceMut<'a, T> {
    /// The view holds a new borrow of the guard, not `value` itself, so the
    /// result is stated on `from`.
    open spec fn obeys_from_spec() -> bool {
        false
    }

    open spec fn from_spec(value: &'a mut RefMut<'a, T>) -> Self {
        ReferenceMut::RefCellRef(value)
    }
}

} // verus!
