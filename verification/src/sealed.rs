use vstd::prelude::*;

verus! {

/// Supertrait of [`CellExt`](crate::CellExt) that outside crates cannot
/// implement, so the extension methods stay tied to [`Cell`](crate::Cell).
pub trait Sealed {

}

} // verus!
