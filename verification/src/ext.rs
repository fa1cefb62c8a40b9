//! By-reference access for values that are `Default` but not `Copy`.
//!
//! The methods here temporarily move the value out of the slot, leaving a
//! default-constructed placeholder behind, hand the extracted value to the
//! caller-supplied closure, and move it back afterwards. The contracts prove
//! that the slot always holds the original (for `with`) or the closure's
//! (for `with_mut`) value once the call returns. Should the closure panic
//! instead of returning, the write-back is skipped and the slot keeps the
//! placeholder: the cell stays valid, at the price of the extracted value.

use vstd::prelude::*;
use crate::Cell;
use crate::sealed;

verus! {

impl<T: Default> Cell<T> {
    /// Moves the held value out and returns it, leaving a
    /// default-constructed placeholder in the slot.
    pub fn take(&mut self) -> (r: T)
        ensures
            r == old(self)@,
            call_ensures(T::default, (), final(self)@),
    {
        let mut value = T::default();
        core::mem::swap(&mut self.value, &mut value);
        value
    }
}

/// Additional by-reference access methods for non-`Copy` types.
pub trait CellExt<T>: sealed::Sealed {
    /// The value the cell currently holds.
    spec fn contents(&self) -> T;

    /// Returns a clone of the held value.
    fn get(&mut self) -> (r: T) where T: Clone + Default
        ensures
            final(self).contents() == old(self).contents(),
            call_ensures(T::clone, (&old(self).contents(),), r),
    ;

    /// Calls `f` with a reference to the held value and returns `f`'s
    /// result; the held value is unchanged afterwards.
    fn with<F, R>(&mut self, f: F) -> (r: R) where T: Default, F: FnOnce(&T) -> R
        requires
            call_requires(f, (&old(self).contents(),)),
        ensures
            final(self).contents() == old(self).contents(),
            call_ensures(f, (&old(self).contents(),), r),
    ;

    /// Calls `f` with a mutable reference to the held value and returns
    /// `f`'s result; the slot afterwards holds the value `f` left behind.
    fn with_mut<F, R>(&mut self, f: F) -> (r: R) where T: Default, F: FnOnce(&mut T) -> R
        requires
            forall|t: &mut T|
                mut_ref_current(t) == old(self).contents()
                    ==> #[trigger] call_requires(f, (t,)),
        ensures
            exists|t: &mut T|
                mut_ref_current(t) == old(self).contents()
                    && mut_ref_future(t) == final(self).contents()
                    && #[trigger] call_ensures(f, (t,), r),
    ;
}

impl<T> sealed::Sealed for Cell<T> {

}

impl<T> CellExt<T> for Cell<T> {
    open spec fn contents(&self) -> T {
        self@
    }

    fn get(&mut self) -> (r: T) where T: Clone + Default {
        self.with(T::clone)
    }

    fn with<F, R>(&mut self, f: F) -> (r: R) where T: Default, F: FnOnce(&T) -> R {
        let value = self.take();
        let result = f(&value);
        self.set(value);
        result
    }

    fn with_mut<F, R>(&mut self, f: F) -> (r: R) where T: Default, F: FnOnce(&mut T) -> R {
        let mut value = self.take();
        let result = f(&mut value);
        self.set(value);
        result
    }
}

} // verus!
