//! A worked example of the conversion contracts: a rule turning an
//! integer into a positive-integer wrapper, failing on zero and on
//! negative values.

use vstd::prelude::*;

use crate::TryFromAsync;

verus! {

/// The fixed descriptive error produced when a conversion to
/// [`GreaterThanZero`] is offered a value that is not strictly positive.
#[derive(Debug, Clone, Copy, PartialEq, Eq, Structural)]
pub struct GreaterThanZeroError;

impl GreaterThanZeroError {
    /// The fixed description of the failure.
    pub fn message(&self) -> (r: &'static str)
        ensures
            r@ == "GreaterThanZero only accepts value superior than zero!"@,
    {
        "GreaterThanZero only accepts value superior than zero!"
    }
}

/// A wrapper holding an integer known to be strictly positive.
#[derive(Debug, Clone, Copy, PartialEq, Eq, Structural)]
pub struct GreaterThanZero(i32);

impl GreaterThanZero {
    /// The wrapped integer, as a mathematical value.
    pub closed spec fn spec_value(&self) -> int {
        self.0 as int
    }

    /// The wrapper's invariant: the wrapped integer is strictly positive.
    pub closed spec fn wf(&self) -> bool {
        self.0 > 0
    }

    /// Returns the wrapped integer.
    pub fn value(&self) -> (r: i32)
        ensures
            r as int == self.spec_value(),
    {
        self.0
    }
}

impl TryFromAsync<i32> for GreaterThanZero {
    type Error = GreaterThanZeroError;

    /// Success wrapping the source exactly when the source is strictly
    /// positive; the fixed error otherwise.
    open spec fn from_ens(source: i32, outcome: Result<Self, Self::Error>) -> bool {
        if source > 0 {
            (outcome matches Ok(t) && t.spec_value() == source && t.wf())
        } else {
            outcome == Err::<Self, Self::Error>(GreaterThanZeroError)
        }
    }

    fn try_from_async(value: i32) -> (outcome: Result<Self, Self::Error>) {
        if value <= 0 {
            Err(GreaterThanZeroError)
        } else {
            Ok(GreaterThanZero(value))
        }
    }
}

} // verus!
