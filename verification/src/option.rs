//! The three-way option that a transform returns.

use vstd::prelude::*;

verus! {

/// What one call produced: a value, no value for this call, or the notice
/// that the source is exhausted and will produce no further value.
#[derive(Clone, PartialEq, Debug)]
pub enum StreamOption<T> {
    /// A value.
    Value(T),
    /// No value for this call. The caller decides how to go on.
    Absent,
    /// No further value will ever be produced.
    EndOfStream,
}

impl<T> StreamOption<T> {
    /// The value held, or `err` when there is none: both `Absent` and
    /// `EndOfStream` give the error.
    pub fn ok_or<E>(self, err: E) -> (result: Result<T, E>)
        ensures
            result == (match self {
                StreamOption::Value(v) => Ok::<T, E>(v),
                StreamOption::Absent => Err::<T, E>(err),
                StreamOption::EndOfStream => Err::<T, E>(err),
            }),
    {
        match self {
            StreamOption::Value(v) => Ok(v),
            StreamOption::Absent => Err(err),
            StreamOption::EndOfStream => Err(err),
        }
    }
}

} // verus!
