//! The error types that the combinators of this crate produce.
use vstd::prelude::*;

verus! {

/// Marks an optional value that was empty where a value was required.
///
/// It carries no information; it is comparable and orderable so that it can
/// be asserted on and used as a key.
#[derive(Debug, Copy, Clone, PartialEq, Eq, PartialOrd, Ord, Hash, Default, Structural)]
pub struct OptionIsNoneError;

impl OptionIsNoneError {
    /// The text that describes this error.
    pub open spec fn spec_message() -> Seq<char> {
        "an Option<T> was `None`"@
    }

    /// The human-readable description of this error.
    pub fn message(&self) -> (r: &'static str)
        ensures
            r@ == Self::spec_message(),
    {
        "an Option<T> was `None`"
    }
}

/// Exactly one of two independently typed failures.
///
/// `Left` carries the failure of the outer step, `Right` that of the inner one.
#[derive(Debug, Copy, Clone, PartialEq, Eq, PartialOrd, Ord, Hash)]
pub enum EitherError<L, R> {
    Left(L),
    Right(R),
}

impl<L, R> EitherError<L, R> {
    /// The payload that is held, seen through a reference: the cause of this error.
    pub fn source(&self) -> (r: EitherError<&L, &R>)
        ensures
            match *self {
                EitherError::Left(l) => r == EitherError::<&L, &R>::Left(&l),
                EitherError::Right(x) => r == EitherError::<&L, &R>::Right(&x),
            },
    {
        match self {
            EitherError::Left(err) => EitherError::Left(err),
            EitherError::Right(err) => EitherError::Right(err),
        }
    }
}

/// A transparent wrapper that lets any value travel as an error.
///
/// It holds the value and nothing else.
#[derive(Debug, Default, Copy, Clone, PartialEq, Eq, PartialOrd, Ord, Hash)]
pub struct ErrorWrapper<T>(pub T);

impl<T> ErrorWrapper<T> {
    /// The wrapped value, by reference.
    pub fn get(&self) -> (r: &T)
        ensures
            *r == self.0,
    {
        &self.0
    }

    /// The wrapped value, by mutable reference.
    pub fn get_mut(&mut self) -> (r: &mut T)
        ensures
            *r == old(self).0,
            final(self).0 == *final(r),
    {
        &mut self.0
    }

    /// Gives the wrapped value back.
    pub fn into_inner(self) -> (r: T)
        ensures
            r == self.0,
    {
        self.0
    }
}

} // verus!
