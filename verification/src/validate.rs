//! Validation: the check that a record can ask for before `build` hands its
//! value out.

use vstd::prelude::*;

verus! {

/// A type whose values are checked before a builder hands them out.
///
/// Where a record asks for validation, `build` calls `validate` on the
/// value that it has made, and returns the value only if the call returns
/// `Ok`.
pub trait Validate {
    /// What is wrong with an invalid value.
    type Error;

    /// Checks the state of `self`.
    fn validate(&self) -> Result<(), Self::Error>;
}

/// What `build` returns for `value` once validation has said `verdict`.
pub open spec fn concluded<T, E>(value: T, verdict: Result<(), E>) -> Result<T, E> {
    match verdict {
        Ok(_) => Ok(value),
        Err(e) => Err(e),
    }
}

/// Ends a validating `build`: hands `value` out where `verdict` is `Ok`, and
/// else drops it and returns the error as it came.
pub fn conclude<T, E>(value: T, verdict: Result<(), E>) -> (out: Result<T, E>)
    ensures
        out == concluded(value, verdict),
{
    match verdict {
        Ok(_) => Ok(value),
        Err(e) => Err(e),
    }
}

/// The end of a validating `build`: validates the finished `value`, once,
/// and hands it out if it is valid. The result is what `conclude` makes of
/// `value` and of what `validate` returned on it.
pub fn validated<T: Validate>(value: T) -> (out: Result<T, T::Error>)
    ensures
        exists|verdict: Result<(), T::Error>|
            call_ensures(T::validate, (&value,), verdict) && out == concluded(value, verdict),
{
    let verdict = value.validate();
    conclude(value, verdict)
}

} // verus!
