//! Standard-trait impls that delegate to the held value.
//!
//! As with the slot accessors, these are only offered where the held type is
//! `Copy` (for duplication, equality and ordering) or `Default` (for default
//! construction of the cell itself); they read a duplicate of the contents
//! and add no logic of their own.

use vstd::prelude::*;
use vstd::std_specs::cmp::{PartialEqSpec, PartialOrdSpec};
use crate::Cell;

verus! {

impl<T: Copy> Clone for Cell<T> {
    /// Returns a new cell holding a duplicate of the held value.
    fn clone(&self) -> (r: Self)
        ensures
            r@ == self@,
    {
        Cell::new(self.get())
    }
}

impl<T: Default> Default for Cell<T> {
    /// Returns a cell holding a default-constructed value.
    fn default() -> (r: Self)
        ensures
            call_ensures(T::default, (), r@),
    {
        Cell::new(T::default())
    }
}

impl<T: PartialEq + Copy> PartialEq for Cell<T> {
    fn eq(&self, other: &Self) -> (r: bool)
        ensures
            T::obeys_eq_spec() ==> r == self@.eq_spec(&other@),
    {
        self.get().eq(&other.get())
    }
}

impl<T: PartialEq + Copy> vstd::std_specs::cmp::PartialEqSpecImpl for Cell<T> {
    open spec fn obeys_eq_spec() -> bool {
        T::obeys_eq_spec()
    }

    open spec fn eq_spec(&self, other: &Cell<T>) -> bool {
        self@.eq_spec(&other@)
    }
}

impl<T: Eq + Copy> Eq for Cell<T> {

}

impl<T: PartialOrd + Copy> PartialOrd for Cell<T> {
    fn partial_cmp(&self, other: &Self) -> (r: Option<core::cmp::Ordering>)
        ensures
            T::obeys_partial_cmp_spec() ==> r == self@.partial_cmp_spec(&other@),
    {
        self.get().partial_cmp(&other.get())
    }
}

impl<T: PartialOrd + Copy> vstd::std_specs::cmp::PartialOrdSpecImpl for Cell<T> {
    open spec fn obeys_partial_cmp_spec() -> bool {
        T::obeys_partial_cmp_spec()
    }

    open spec fn partial_cmp_spec(&self, other: &Cell<T>) -> Option<core::cmp::Ordering> {
        self@.partial_cmp_spec(&other@)
    }
}

} // verus!
