//! What holds of every container, whatever value or cell it was made from.
//!
//! The laws are stated over the spec functions that the contracts of
//! [`OwnOrBorrow`] use: `held` and `stored` for what the views read and
//! write, `into_owned`, `into_cell` and `into_cell_ref` for what the three
//! conversions return, and `from_spec` for what `from` makes of a cell.

use crate::container::OwnOrBorrow;
use crate::error::TryIntoError;
use crate::view::Reference;
use core::cell::RefCell;
use vstd::prelude::*;
use vstd::std_specs::convert::FromSpec;

verus! {

/// A container that owns `value` is read as `value`: its read view is the
/// plain reference to `value`, and so is what its write view reads at first.
/// Once `written` has been stored through the write view, the container is
/// read as `written`.
pub proof fn owned_value_is_read_and_written_in_place<T>(value: T, written: T)
    ensures
        OwnOrBorrow::Owned(value).held() == Some(value),
        Reference::Borrowed(&value).direct() == Some(value),
        OwnOrBorrow::Owned(value).stored(written) == OwnOrBorrow::Owned(written),
        OwnOrBorrow::Owned(value).stored(written).held() == Some(written),
{
}

/// A container that owns `value` gives `value` back as the owned value, and
/// is neither a cell nor a reference to one.
pub proof fn owned_converts_to_owned_only<T>(value: T)
    ensures
        OwnOrBorrow::Owned(value).into_owned() == Ok::<T, TryIntoError>(value),
        OwnOrBorrow::Owned(value).into_cell() == Err::<RefCell<T>, TryIntoError>(
            TryIntoError::NotConvertible,
        ),
        OwnOrBorrow::Owned(value).into_cell_ref() == Err::<&RefCell<T>, TryIntoError>(
            TryIntoError::NotConvertible,
        ),
{
}

/// A container that owns `cell` gives that very cell back, and is neither an
/// owned value nor a reference to a cell.
pub proof fn cell_converts_to_cell_only<T>(cell: RefCell<T>)
    ensures
        OwnOrBorrow::RefCell(cell).into_cell() == Ok::<RefCell<T>, TryIntoError>(cell),
        OwnOrBorrow::RefCell(cell).into_owned() == Err::<T, TryIntoError>(
            TryIntoError::NotConvertible,
        ),
        OwnOrBorrow::RefCell(cell).into_cell_ref() == Err::<&RefCell<T>, TryIntoError>(
            TryIntoError::NotConvertible,
        ),
{
}

/// A container that refers to `cell` gives that very reference back, and is
/// neither an owned value nor a cell of its own.
pub proof fn cell_ref_converts_to_cell_ref_only<'a, T>(cell: &'a RefCell<T>)
    ensures
        OwnOrBorrow::RefCellRef(cell).into_cell_ref() == Ok::<&RefCell<T>, TryIntoError>(cell),
        OwnOrBorrow::RefCellRef(cell).into_owned() == Err::<T, TryIntoError>(
            TryIntoError::NotConvertible,
        ),
        OwnOrBorrow::RefCellRef(cell).into_cell() == Err::<RefCell<T>, TryIntoError>(
            TryIntoError::NotConvertible,
        ),
{
}

/// Round trip: a cell that is made into a container and taken out again is
/// the cell that went in, so it holds what it held.
pub proof fn cell_round_trip<T>(cell: RefCell<T>)
    ensures
        OwnOrBorrow::<T>::from_spec(cell).into_cell() == Ok::<RefCell<T>, TryIntoError>(cell),
{
}

/// Round trip: a reference to a cell that is made into a container and taken
/// out again is the reference that went in.
pub proof fn cell_ref_round_trip<'a, T>(cell: &'a RefCell<T>)
    ensures
        OwnOrBorrow::<'a, T>::from_spec(cell).into_cell_ref() == Ok::<&RefCell<T>, TryIntoError>(
            cell,
        ),
{
}

/// Storing through a write view never changes what kind of container it is,
/// and leaves a container that holds a cell as it was.
pub proof fn stored_keeps_the_kind<'a, T>(container: OwnOrBorrow<'a, T>, written: T)
    ensures
        container.stored(written) is Owned <==> container is Owned,
        container.stored(written) is RefCell <==> container is RefCell,
        container.stored(written) is RefCellRef <==> container is RefCellRef,
        !(container is Owned) ==> container.stored(written) == container,
{
}

} // verus!
