//! What the written builders lean on. They name everything through this
//! module, so that they work wherever the record is declared.

pub use core::convert::{From, Into};
pub use core::default::Default;
pub use core::iter::{Extend, FromIterator, IntoIterator, Iterator};
pub use core::result::Result;

use vstd::prelude::*;

verus! {

/// Calls `f` on `t`. A closure that is called where it is written does not
/// get the type of its argument inferred; handed to a function, it does.
pub fn call_hack<T, R, F: FnOnce(T) -> R>(f: F, t: T) -> (out: R)
    requires
        f.requires((t,)),
    ensures
        f.ensures((t,), out),
{
    f(t)
}

} // verus!
