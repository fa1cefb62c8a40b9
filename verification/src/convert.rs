//! Conversions between [`Cell`] and the standard library's
//! [`core::cell::Cell`].
//!
//! The standard cell's contents are reachable only through its own methods,
//! so Verus sees the type as opaque: the conversions in this module carry a
//! value across, but no contract can name the value a standard cell holds.

use vstd::prelude::*;
use crate::Cell;
use core::cell::Cell as StdCell;

verus! {

#[verifier::external_type_specification]
#[verifier::external_body]
#[verifier::reject_recursive_types(T)]
pub struct ExStdCell<T: ?Sized>(StdCell<T>);

/// Relies on `core::cell::Cell::new`: wraps a value in a standard cell.
pub assume_specification<T>[ StdCell::<T>::new ](value: T) -> StdCell<T>;

/// Relies on `core::cell::Cell::into_inner`: unwraps a standard cell into
/// the value it holds.
pub assume_specification<T>[ StdCell::<T>::into_inner ](cell: StdCell<T>) -> T;

impl<T> From<StdCell<T>> for Cell<T> {
    /// Creates a cell holding the value the standard cell held.
    fn from(cell: StdCell<T>) -> Self {
        Cell::new(cell.into_inner())
    }
}

impl<T> vstd::std_specs::convert::FromSpecImpl<StdCell<T>> for Cell<T> {
    open spec fn obeys_from_spec() -> bool {
        false
    }

    open spec fn from_spec(cell: StdCell<T>) -> Cell<T> {
        arbitrary()
    }
}

impl<T> From<Cell<T>> for StdCell<T> {
    /// Creates a standard cell holding the value the cell held.
    fn from(cell: Cell<T>) -> Self {
        StdCell::new(cell.into_inner())
    }
}

impl<T> vstd::std_specs::convert::FromSpecImpl<Cell<T>> for StdCell<T> {
    open spec fn obeys_from_spec() -> bool {
        false
    }

    open spec fn from_spec(cell: Cell<T>) -> StdCell<T> {
        arbitrary()
    }
}

} // verus!
