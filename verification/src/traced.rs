//! Conversion of a result's error into the error container, on request.

use vstd::prelude::*;
use vstd::std_specs::convert::IntoSpec;
use crate::error::Error;

verus! {

/// std's conversion of a type into itself, `From<T> for T`, which hands its
/// argument back. It is what `into` comes to where the error side is an
/// [`Error`] already.
pub assume_specification<V>[ <V as std::convert::From<V>>::from ](value: V) -> (same: V)
    ensures
        same == value,
;

/// A value whose error side can be turned into an [`Error`] where the caller
/// says so, in place of the conversion that `?` makes on its own.
pub trait Traced {
    /// What the value becomes.
    type Output;

    /// Converts the error side, capturing the context of the caller.
    fn traced(self) -> Self::Output;
}

impl<T, E: Into<Error>> Traced for Result<T, E> {
    type Output = Result<T, Error>;

    /// A success is handed back as it is, and nothing is captured. A failure
    /// is converted, once, by the conversion of its type.
    fn traced(self) -> (traced: Result<T, Error>)
        ensures
            self is Ok ==> traced == Ok::<T, Error>(self->Ok_0),
            self is Err ==> traced is Err,
            self is Err && <E as IntoSpec<Error>>::obeys_into_spec() ==> traced->Err_0
                == self->Err_0.into_spec(),
            self is Err ==> call_ensures(<E as Into<Error>>::into, (self->Err_0,), traced->Err_0),
    {
        match self {
            Ok(value) => Ok(value),
            Err(error) => Err(error.into()),
        }
    }
}

/// A result whose error side is an [`Error`] already comes back from
/// `traced` as it is: the error is handed on, not wrapped again, and keeps the
/// context of the place where it was built.
pub proof fn lemma_traced_keeps_an_error<T>(result: Result<T, Error>, traced: Result<T, Error>)
    requires
        call_ensures(<Result<T, Error> as Traced>::traced, (result,), traced),
    ensures
        traced == result,
{
}

} // verus!
