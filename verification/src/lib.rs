//! Fallible `TryFromAsync`/`TryIntoAsync` conversion contracts.
//!
//! The crate defines a pair of reciprocal conversion traits: a
//! target-centric forward direction ([`TryFromAsync`]) and a
//! source-centric reverse direction ([`TryIntoAsync`]). A single blanket
//! rule derives the reverse direction from the forward one, so library
//! authors implement one trait and get the other for free, with the two
//! call shapes guaranteed to admit exactly the same outcomes.

use vstd::prelude::*;

pub mod positive;
pub mod prelude;

verus! {

/// Simple and safe type conversions that may fail in a controlled
/// way under some circumstances. It is the reciprocal of [`TryIntoAsync`].
///
/// Each implementer chooses the error type and states, through
/// [`from_ens`](TryFromAsync::from_ens), which outcomes its conversion may
/// produce for a given source value; the trait itself imposes no
/// constraint beyond that self-chosen contract.
pub trait TryFromAsync<T>: Sized {
    /// The type returned in the event of a conversion error.
    type Error;

    /// The implementer-chosen contract: which outcomes the conversion
    /// may produce from a given source value.
    spec fn from_ens(source: T, outcome: Result<Self, Self::Error>) -> bool;

    /// Performs the conversion.
    fn try_from_async(value: T) -> (outcome: Result<Self, Self::Error>)
        ensures
            Self::from_ens(value, outcome),
    ;
}

/// An attempted conversion that consumes `self`, which may or may not be
/// expensive.
///
/// Library authors should usually not directly implement this trait,
/// but should prefer implementing the [`TryFromAsync`] trait, which offers
/// greater flexibility and provides an equivalent `TryIntoAsync`
/// implementation for free, thanks to a blanket implementation in this
/// crate.
pub trait TryIntoAsync<T>: Sized {
    /// The type returned in the event of a conversion error.
    type Error;

    /// The contract of the conversion: which outcomes it may produce
    /// when consuming a given source value.
    spec fn into_ens(source: Self, outcome: Result<T, Self::Error>) -> bool;

    /// Performs the conversion.
    fn try_into_async(self) -> (outcome: Result<T, Self::Error>)
        ensures
            Self::into_ens(self, outcome),
    ;
}

/// `TryFromAsync` implies `TryIntoAsync`: the reverse direction is the
/// forward conversion itself, so it admits exactly the forward
/// contract's outcomes and surfaces the forward error value unchanged.
impl<T, U: TryFromAsync<T>> TryIntoAsync<U> for T {
    type Error = U::Error;

    open spec fn into_ens(source: T, outcome: Result<U, U::Error>) -> bool {
        U::from_ens(source, outcome)
    }

    fn try_into_async(self) -> (outcome: Result<U, U::Error>) {
        U::try_from_async(self)
    }
}

/// The derived reverse-named operation has exactly the forward contract:
/// for every source value, an outcome (a success value with its content, or
/// an error value with its content) is admitted by the reverse direction if
/// and only if the forward direction admits it.
pub proof fn lemma_reverse_matches_forward<T, U: TryFromAsync<T>>(
    source: T,
    outcome: Result<U, U::Error>,
)
    ensures
        <T as TryIntoAsync<U>>::into_ens(source, outcome) == U::from_ens(source, outcome),
{
}

/// Every success the forward contract admits for a source value, the
/// derived reverse contract admits for that source value, with an equal
/// target value.
pub proof fn lemma_reverse_success_matches<T, U: TryFromAsync<T>>(source: T, target: U)
    requires
        U::from_ens(source, Ok(target)),
    ensures
        <T as TryIntoAsync<U>>::into_ens(source, Ok(target)),
{
}

/// Every failure the forward contract admits for a source value, the
/// derived reverse contract admits for that source value, with an equal
/// error value: the error is surfaced unchanged, never wrapped or
/// transformed.
pub proof fn lemma_reverse_failure_matches<T, U: TryFromAsync<T>>(source: T, err: U::Error)
    requires
        U::from_ens(source, Err(err)),
    ensures
        <T as TryIntoAsync<U>>::into_ens(source, Err(err)),
{
}

} // verus!
