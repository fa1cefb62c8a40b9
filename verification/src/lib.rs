//! A single-slot cell with methods for by-reference inspection and mutation
//! of the held value (`with` and `with_mut`), alongside plain `get`, `set`
//! and conversions from and to a bare value or a `core::cell::Cell`.
//!
//! For `Copy` types the access methods work on a bitwise duplicate of the
//! slot's contents. The extension trait [`CellExt`] offers the same
//! operations for types that are `Default` but not `Copy`: the value is
//! temporarily moved out of the slot, a default-constructed placeholder
//! standing in for it, and moved back once the caller-supplied closure
//! returns. A type that is both `Copy` and `Default` qualifies for either
//! family; the inherent methods, which never vacate the slot, take
//! precedence.
//!
//! Every method carries a contract over the cell's view (the held value),
//! so a caller knows exactly which value the slot holds after each call.
//! Methods that change the slot take `&mut self`: the cell is a plain slot,
//! not an interior-mutability primitive, which is what lets the contents be
//! tracked by the verifier.

use vstd::prelude::*;

mod convert;
mod delegate;
mod ext;
pub mod laws;
mod sealed;

pub use ext::CellExt;

verus! {

/// A cell holding exactly one value of type `T`.
#[derive(Debug)]
pub struct Cell<T> {
    value: T,
}

impl<T> View for Cell<T> {
    type V = T;

    closed spec fn view(&self) -> T {
        self.value
    }
}

impl<T> Cell<T> {
    /// Creates a new cell holding `value`.
    pub fn new(value: T) -> (c: Self)
        ensures
            c@ == value,
    {
        Cell { value }
    }

    /// Overwrites the held value, discarding the previous one.
    pub fn set(&mut self, value: T)
        ensures
            final(self)@ == value,
    {
        self.value = value;
    }

    /// Consumes the cell and returns the held value.
    pub fn into_inner(self) -> (r: T)
        ensures
            r == self@,
    {
        self.value
    }
}

impl<T> From<T> for Cell<T> {
    /// Creates a new cell holding `value`.
    fn from(value: T) -> (r: Self)
        ensures
            r@ == value,
    {
        Cell::new(value)
    }
}

impl<T> vstd::std_specs::convert::FromSpecImpl<T> for Cell<T> {
    open spec fn obeys_from_spec() -> bool {
        true
    }

    closed spec fn from_spec(value: T) -> Cell<T> {
        Cell { value }
    }
}

impl<T: Copy> Cell<T> {
    /// Returns a bitwise duplicate of the held value.
    pub fn get(&self) -> (r: T)
        ensures
            r == self@,
    {
        self.value
    }

    /// Calls `f` with a reference to a duplicate of the held value and
    /// returns `f`'s result. The slot itself is untouched.
    pub fn with<F, R>(&self, f: F) -> (r: R) where F: FnOnce(&T) -> R
        requires
            call_requires(f, (&self@,)),
        ensures
            call_ensures(f, (&self@,), r),
    {
        f(&self.get())
    }

    /// Calls `f` with a mutable reference to a duplicate of the held value,
    /// writes the (possibly mutated) duplicate back, and returns `f`'s
    /// result. Should `f` panic, the write-back is skipped and the slot
    /// keeps its pre-call value.
    pub fn with_mut<F, R>(&mut self, f: F) -> (r: R) where F: FnOnce(&mut T) -> R
        requires
            forall|t: &mut T|
                mut_ref_current(t) == old(self)@ ==> #[trigger] call_requires(f, (t,)),
        ensures
            exists|t: &mut T|
                mut_ref_current(t) == old(self)@ && mut_ref_future(t) == final(self)@
                    && #[trigger] call_ensures(f, (t,), r),
    {
        let mut value = Self::get(self);
        let result = f(&mut value);
        self.set(value);
        result
    }
}

} // verus!
