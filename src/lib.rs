//! Combinators that give absence of a value, one of two failures and a foreign
//! error type a common place in result-based control flow, and the decisions
//! of a retry loop that lets an operator retry a failed operation.
use vstd::prelude::*;

pub mod errors;
pub mod gui;

use crate::errors::{EitherError, ErrorWrapper, OptionIsNoneError};

verus! {

/// Discards a result on purpose, with nothing else done.
pub trait IgnoreResult: Sized {
    fn ignore(self) -> (r: ())
        ensures
            r == (),
    ;
}

impl<T, E> IgnoreResult for Result<T, E> {
    fn ignore(self) -> (r: ()) {
        ()
    }
}

/// The result of requiring a value of an option: the value, or `OptionIsNoneError`.
pub open spec fn spec_some<T>(o: Option<T>) -> Result<T, OptionIsNoneError> {
    match o {
        Some(x) => Ok(x),
        None => Err(OptionIsNoneError),
    }
}

/// Turns an absent value into an error.
pub trait SomeOptionExt<T>: Sized {
    spec fn spec_required(self) -> Result<T, OptionIsNoneError>;

    fn some(self) -> (r: Result<T, OptionIsNoneError>)
        ensures
            r == self.spec_required(),
    ;
}

impl<T> SomeOptionExt<T> for Option<T> {
    open spec fn spec_required(self) -> Result<T, OptionIsNoneError> {
        spec_some(self)
    }

    fn some(self) -> (r: Result<T, OptionIsNoneError>) {
        match self {
            Some(x) => Ok(x),
            None => Err(OptionIsNoneError),
        }
    }
}

/// Two nested failures flattened into one: the outer failure is tagged `Left`,
/// the inner one `Right`.
pub open spec fn spec_transpose_nested<T, L, R>(x: Result<Result<T, R>, L>) -> Result<
    T,
    EitherError<L, R>,
> {
    match x {
        Ok(Ok(t)) => Ok(t),
        Ok(Err(r)) => Err(EitherError::Right(r)),
        Err(l) => Err(EitherError::Left(l)),
    }
}

/// Flattens a result that holds a second level of failure into one result
/// whose error tells which level failed.
pub trait TransposeError<T, E1, E2>: Sized {
    spec fn spec_transposed(self) -> Result<T, EitherError<E1, E2>>;

    fn transpose_err(self) -> (r: Result<T, EitherError<E1, E2>>)
        ensures
            r == self.spec_transposed(),
    ;
}

impl<T, E1, E2> TransposeError<T, E1, E2> for Result<Result<T, E2>, E1> {
    open spec fn spec_transposed(self) -> Result<T, EitherError<E1, E2>> {
        spec_transpose_nested(self)
    }

    fn transpose_err(self) -> (r: Result<T, EitherError<E1, E2>>) {
        match self {
            Ok(res) => match res {
                Ok(ok) => Ok(ok),
                Err(err) => Err(EitherError::Right(err)),
            },
            Err(err) => Err(EitherError::Left(err)),
        }
    }
}

impl<T, E> TransposeError<T, E, OptionIsNoneError> for Result<Option<T>, E> {
    /// The inner option is first required, then the two levels are flattened.
    open spec fn spec_transposed(self) -> Result<T, EitherError<E, OptionIsNoneError>> {
        spec_transpose_nested(
            match self {
                Ok(o) => Ok(spec_some(o)),
                Err(e) => Err(e),
            },
        )
    }

    fn transpose_err(self) -> (r: Result<T, EitherError<E, OptionIsNoneError>>) {
        let required: Result<Result<T, OptionIsNoneError>, E> = match self {
            Ok(o) => Ok(o.some()),
            Err(e) => Err(e),
        };
        required.transpose_err()
    }
}

/// The result with its error wrapped in `ErrorWrapper`, the value unchanged.
pub open spec fn spec_wrapped<T, E>(x: Result<T, E>) -> Result<T, ErrorWrapper<E>> {
    match x {
        Ok(t) => Ok(t),
        Err(e) => Err(ErrorWrapper(e)),
    }
}

/// Re-types the error of a result as an `ErrorWrapper` of it.
pub trait WrapError<T, E>: Sized {
    spec fn spec_wrap(self) -> Result<T, ErrorWrapper<E>>;

    fn wrapped(self) -> (r: Result<T, ErrorWrapper<E>>)
        ensures
            r == self.spec_wrap(),
    ;
}

impl<T, E> WrapError<T, E> for Result<T, E> {
    open spec fn spec_wrap(self) -> Result<T, ErrorWrapper<E>> {
        spec_wrapped(self)
    }

    fn wrapped(self) -> (r: Result<T, ErrorWrapper<E>>) {
        match self {
            Ok(t) => Ok(t),
            Err(e) => Err(ErrorWrapper(e)),
        }
    }
}

/// Flattening two levels keeps a success as it is, tags a failure of the outer
/// level `Left` and one of the inner level `Right`, each with its payload.
pub proof fn law_transpose_nested<T, L, R>(x: Result<Result<T, R>, L>)
    ensures
        match x {
            Ok(Ok(t)) => x.spec_transposed() == Ok::<T, EitherError<L, R>>(t),
            Ok(Err(r)) => x.spec_transposed() == Err::<T, EitherError<L, R>>(
                EitherError::Right(r),
            ),
            Err(l) => x.spec_transposed() == Err::<T, EitherError<L, R>>(EitherError::Left(l)),
        },
{
}

/// Flattening a result of an option gives the present value, an absent value as
/// a `Right` `OptionIsNoneError`, and the outer failure as `Left`.
pub proof fn law_transpose_optional<T, E>(x: Result<Option<T>, E>)
    ensures
        match x {
            Ok(Some(t)) => x.spec_transposed() == Ok::<T, EitherError<E, OptionIsNoneError>>(t),
            Ok(None) => x.spec_transposed() == Err::<T, EitherError<E, OptionIsNoneError>>(
                EitherError::Right(OptionIsNoneError),
            ),
            Err(e) => x.spec_transposed() == Err::<T, EitherError<E, OptionIsNoneError>>(
                EitherError::Left(e),
            ),
        },
{
}

/// Unwrapping the error of a wrapped result gives back the original result.
pub proof fn law_wrap_round_trip<T, E>(x: Result<T, E>)
    ensures
        match x.spec_wrap() {
            Ok(t) => x == Ok::<T, E>(t),
            Err(w) => x == Err::<T, E>(w.0),
        },
{
}

/// A present value comes out as `Ok` of itself; an absent one as
/// `Err(OptionIsNoneError)`, which holds no value.
pub proof fn law_some<T>(x: T)
    ensures
        Some(x).spec_required() == Ok::<T, OptionIsNoneError>(x),
        None::<T>.spec_required() == Err::<T, OptionIsNoneError>(OptionIsNoneError),
        !(None::<T>.spec_required() is Ok),
{
}

} // verus!
