//! The laws the cell obeys, stated over the contracts of its methods and
//! proved once and for all.
//!
//! Each proof function takes as premises exactly what the methods' `ensures`
//! clauses give a caller, and concludes the property a user relies on.

use vstd::prelude::*;
use crate::Cell;
use crate::CellExt;

verus! {

/// Round-trip identity for duplicable values: reading a cell freshly
/// created from `v` yields `v` itself.
///
/// The premises are what `Cell::new(v)` and `Cell::get()` ensure.
pub proof fn lemma_new_get_identity<T: Copy>(v: T, c: Cell<T>, got: T)
    requires
        c@ == v,
        got == c@,
    ensures
        got == v,
{
}

/// Mutation visibility for duplicable values: the value read back after
/// `with_mut(m)` on a cell created from `v` is a value `m` itself can leave
/// behind when handed `v` directly — mutating through the cell is the same
/// as mutating the value and reading the result.
///
/// The premises are what `Cell::new(v)`, `Cell::with_mut(m)` and
/// `Cell::get()` ensure.
pub proof fn lemma_mutation_visible_copy<T: Copy, F: FnOnce(&mut T) -> R, R>(
    m: F,
    v: T,
    c0: Cell<T>,
    c1: Cell<T>,
    ret: R,
    got: T,
)
    requires
        c0@ == v,
        exists|t: &mut T|
            mut_ref_current(t) == c0@ && mut_ref_future(t) == c1@
                && #[trigger] call_ensures(m, (t,), ret),
        got == c1@,
    ensures
        exists|t: &mut T|
            mut_ref_current(t) == v && mut_ref_future(t) == got
                && #[trigger] call_ensures(m, (t,), ret),
{
}

/// Mutation visibility for default-constructible values, stated for every
/// implementor of [`CellExt`]: the contents after `with_mut(m)` are a value
/// `m` itself can leave behind when handed the old contents directly.
///
/// The premises are what `CellExt::with_mut(m)` ensures.
pub proof fn lemma_mutation_visible_default<T: Default, C: CellExt<T>, F: FnOnce(&mut T) -> R, R>(
    m: F,
    v: T,
    c0: C,
    c1: C,
    ret: R,
)
    requires
        c0.contents() == v,
        exists|t: &mut T|
            mut_ref_current(t) == c0.contents() && mut_ref_future(t) == c1.contents()
                && #[trigger] call_ensures(m, (t,), ret),
    ensures
        exists|t: &mut T|
            mut_ref_current(t) == v && mut_ref_future(t) == c1.contents()
                && #[trigger] call_ensures(m, (t,), ret),
{
}

/// Conversion round trip between a bare value and a cell: wrapping a value
/// with `new` (or `From`) and unwrapping it with `into_inner` yields the
/// original value.
///
/// The premises are what `Cell::new(v)` and `Cell::into_inner()` ensure.
pub proof fn lemma_value_round_trip<T>(v: T, c: Cell<T>, back: T)
    requires
        c@ == v,
        back == c@,
    ensures
        back == v,
{
}

} // verus!
