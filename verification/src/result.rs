//! The result type returned by this crate.

use vstd::prelude::*;
use crate::error::{LensError, SdkError};

verus! {

/// The result of a function of this crate.
pub type SdkResult<T> = Result<T, SdkError>;

impl<T> From<LensError> for Result<T, SdkError> {
    fn from(err: LensError) -> (result: Result<T, SdkError>) {
        Err(SdkError::Lens(err))
    }
}

impl<T> vstd::std_specs::convert::FromSpecImpl<LensError> for Result<T, SdkError> {
    open spec fn obeys_from_spec() -> bool {
        true
    }

    open spec fn from_spec(err: LensError) -> Result<T, SdkError> {
        Err(SdkError::Lens(err))
    }
}

} // verus!
