//! The container: a value that is owned, or kept in a shared cell.

use crate::cell::cell_try_borrow;
use crate::cell::cell_try_borrow_mut;
use crate::error::TryIntoError;
use crate::render::write_debug;
use crate::render::written_text;
use crate::view::read_view_of;
use crate::view::write_view_of;
use crate::view::Reference;
use crate::view::ReferenceMut;
use core::cell::RefCell;
use vstd::prelude::*;
use vstd::std_specs::convert::FromSpecImpl;
use vstd::std_specs::convert::TryIntoSpecImpl;
use vstd::string::to_string_from_display_ensures;

verus! {

/// A value that is either owned or kept in a shared cell.
///
/// Which of the three it is, is settled when the container is made and never
/// changes afterwards.
#[verifier::reject_recursive_types(T)]
pub enum OwnOrBorrow<'a, T> {
    /// A value that the container owns.
    Owned(T),
    /// A shared cell that the container owns.
    RefCell(RefCell<T>),
    /// A shared cell that is owned elsewhere.
    RefCellRef(&'a RefCell<T>),
}

impl<'a, T> OwnOrBorrow<'a, T> {
    /// The value, where the container owns it outright.
    pub open spec fn held(self) -> Option<T> {
        match self {
            OwnOrBorrow::Owned(value) => Some(value),
            _ => None,
        }
    }

    /// The container after `written` has been stored through a write view:
    /// an owned value is replaced, a cell stays the cell it was.
    pub open spec fn stored(self, written: T) -> Self {
        match self {
            OwnOrBorrow::Owned(_) => OwnOrBorrow::Owned(written),
            _ => self,
        }
    }

    /// What `try_into_owned` returns.
    pub open spec fn into_owned(self) -> Result<T, TryIntoError> {
        match self {
            OwnOrBorrow::Owned(value) => Ok(value),
            _ => Err(TryIntoError::NotConvertible),
        }
    }

    /// What `try_into_cell` returns.
    pub open spec fn into_cell(self) -> Result<RefCell<T>, TryIntoError> {
        match self {
            OwnOrBorrow::RefCell(cell) => Ok(cell),
            _ => Err(TryIntoError::NotConvertible),
        }
    }

    /// What `try_into_cell_ref` returns.
    pub open spec fn into_cell_ref(self) -> Result<&'a RefCell<T>, TryIntoError> {
        match self {
            OwnOrBorrow::RefCellRef(cell) => Ok(cell),
            _ => Err(TryIntoError::NotConvertible),
        }
    }

    /// A container that owns `value`.
    pub fn own(value: T) -> (container: Self)
        ensures
            container == OwnOrBorrow::<'a, T>::Owned(value),
    {
        Self::Owned(value)
    }

    /// Read access to the value.
    ///
    /// An owned value is read in place, always. A cell is asked for a read
    /// guard, which it refuses while a write guard of it is alive: then
    /// there is no view.
    pub fn borrow(&'a self) -> (view: Option<Reference<'a, T>>)
        ensures
            self.held() matches Some(value) ==> (view matches Some(found) && found.direct() == Some(
                value,
            )),
            self.held() is None ==> (view matches Some(found) ==> found is RefCell),
    {
        match self {
            OwnOrBorrow::Owned(value) => Some(Reference::Borrowed(value)),
            OwnOrBorrow::RefCell(cell) => read_view_of(cell_try_borrow(cell)),
            OwnOrBorrow::RefCellRef(cell) => read_view_of(cell_try_borrow(cell)),
        }
    }

    /// Write access to the value.
    ///
    /// An owned value is written in place, always: what the view leaves
    /// behind is what the container then owns. A cell is asked for a write
    /// guard, which it refuses while any guard of it is alive: then there is
    /// no view. Granted or refused, the container keeps the cell it had.
    pub fn borrow_mut<'s>(&'s mut self) -> (view: Option<ReferenceMut<'s, T>>)
        ensures
            old(self).held() matches Some(value) ==> (view matches Some(found) && found.direct()
                == Some(value)),
            match view {
                Some(ReferenceMut::Borrowed(place)) => *final(self) == old(self).stored(
                    *final(place),
                ),
                Some(ReferenceMut::RefCell(_)) => old(self).held() is None && *final(self) == *old(
                    self,
                ),
                Some(ReferenceMut::RefCellRef(_)) => false,
                None => old(self).held() is None && *final(self) == *old(self),
            },
    {
        match self {
            OwnOrBorrow::Owned(value) => Some(ReferenceMut::Borrowed(value)),
            OwnOrBorrow::RefCell(cell) => write_view_of(cell_try_borrow_mut(cell)),
            OwnOrBorrow::RefCellRef(cell) => write_view_of(cell_try_borrow_mut(cell)),
        }
    }

    /// The owned value, if the container owns one.
    pub fn try_into_owned(self) -> (result: Result<T, TryIntoError>)
        ensures
            result == self.into_owned(),
    {
        match self {
            OwnOrBorrow::Owned(value) => Ok(value),
            OwnOrBorrow::RefCell(_) => Err(TryIntoError::NotConvertible),
            OwnOrBorrow::RefCellRef(_) => Err(TryIntoError::NotConvertible),
        }
    }

    /// The cell, if the container owns one.
    pub fn try_into_cell(self) -> (result: Result<RefCell<T>, TryIntoError>)
        ensures
            result == self.into_cell(),
    {
        match self {
            OwnOrBorrow::Owned(_) => Err(TryIntoError::NotConvertible),
            OwnOrBorrow::RefCell(cell) => Ok(cell),
            OwnOrBorrow::RefCellRef(_) => Err(TryIntoError::NotConvertible),
        }
    }

    /// The reference to the cell, if the container refers to one.
    pub fn try_into_cell_ref(self) -> (result: Result<&'a RefCell<T>, TryIntoError>)
        ensures
            result == self.into_cell_ref(),
    {
        match self {
            OwnOrBorrow::Owned(_) => Err(TryIntoError::NotConvertible),
            OwnOrBorrow::RefCell(_) => Err(TryIntoError::NotConvertible),
            OwnOrBorrow::RefCellRef(cell) => Ok(cell),
        }
    }
}

impl<'a, T: core::fmt::Display> OwnOrBorrow<'a, T> {
    /// The display text of the value: the container adds nothing to it.
    ///
    /// The value is read through a read view. There is no text where there
    /// is no view: while the container's cell is being written. The text is
    /// made by `ToString::to_string`, which panics where the `Display` impl
    /// of `T` returns an error.
    pub fn to_string(&self) -> (text: Option<String>)
        ensures
            self.held() matches Some(value) ==> (text matches Some(found)
                && to_string_from_display_ensures::<T>(&value, found)),
            text matches Some(found) ==> (exists|shown: T| #[trigger]
                to_string_from_display_ensures::<T>(&shown, found)),
    {
        match self.borrow() {
            Some(view) => {
                let value: &T = core::ops::Deref::deref(&view);
                let text = Some(value.to_string());
                assert(to_string_from_display_ensures::<T>(value, text->Some_0));
                text
            },
            None => None,
        }
    }
}

impl<'a, T: core::fmt::Debug> OwnOrBorrow<'a, T> {
    /// The debug text of the value: the container adds nothing to it.
    ///
    /// The value is read through a read view. There is no text where there
    /// is no view, while the container's cell is being written, nor where
    /// the `Debug` impl of `T` gives up.
    pub fn to_debug_string(&self) -> (text: Option<String>) {
        match self.borrow() {
            Some(view) => {
                let value: &T = core::ops::Deref::deref(&view);
                let mut text = String::new();
                let outcome = write_debug(&mut text, value);
                written_text(text, outcome)
            },
            None => None,
        }
    }
}

impl<'a, T> From<RefCell<T>> for OwnOrBorrow<'a, T> {
    /// A container that owns the cell `value`.
    #[inline]
    fn from(value: RefCell<T>) -> (container: Self) {
        Self::RefCell(value)
    }
}

impl<'a, T> FromSpecImpl<RefCell<T>> for OwnOrBorrow<'a, T> {
    open spec fn obeys_from_spec() -> bool {
        true
    }

    open spec fn from_spec(value: RefCell<T>) -> Self {
        OwnOrBorrow::RefCell(value)
    }
}

impl<'a, T> From<&'a RefCell<T>> for OwnOrBorrow<'a, T> {
    /// A container that refers to the cell `value`.
    #[inline]
    fn from(value: &'a RefCell<T>) -> (container: Self) {
        Self::RefCellRef(value)
    }
}

impl<'a, T> FromSpecImpl<&'a RefCell<T>> for OwnOrBorrow<'a, T> {
    open spec fn obeys_from_spec() -> bool {
        true
    }

    open spec fn from_spec(value: &'a RefCell<T>) -> Self {
        OwnOrBorrow::RefCellRef(value)
    }
}

impl<'a, T> TryInto<RefCell<T>> for OwnOrBorrow<'a, T> {
    type Error = TryIntoError;

    fn try_into(self) -> (result: Result<RefCell<T>, TryIntoError>) {
        self.try_into_cell()
    }
}

impl<'a, T> TryIntoSpecImpl<RefCell<T>> for OwnOrBorrow<'a, T> {
    open spec fn obeys_try_into_spec() -> bool {
        true
    }

    open spec fn try_into_spec(self) -> Result<RefCell<T>, TryIntoError> {
        self.into_cell()
    }
}

impl<'a, T> TryInto<&'a RefCell<T>> for OwnOrBorrow<'a, T> {
    type Error = TryIntoError;

    fn try_into(self) -> (result: Result<&'a RefCell<T>, TryIntoError>) {
        self.try_into_cell_ref()
    }
}

impl<'a, T> TryIntoSpecImpl<&'a RefCell<T>> for OwnOrBorrow<'a, T> {
    open spec fn obeys_try_into_spec() -> bool {
        true
    }

    open spec fn try_into_spec(self) -> Result<&'a RefCell<T>, TryIntoError> {
        self.into_cell_ref()
    }
}

} // verus!
