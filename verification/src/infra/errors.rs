//! The failures that a request can end in.

use crate::infra::validations::ValidationErrors;
use vstd::prelude::*;

verus! {

/// How a request failed.
#[derive(Debug)]
pub enum AppError {
    /// Anything that is not the caller's doing, with a description.
    CatchAll(String),
    /// The signature, given here, does not match the request.
    BadSignature(String),
    /// The request or the image breaks limits; one sentence for each.
    ValidationFailed(Vec<String>),
    /// Neither the origin, nor the address, nor the bytes tell the format.
    UnableToDetermineFormat,
}

impl From<ValidationErrors> for AppError {
    fn from(value: ValidationErrors) -> (error: AppError) {
        AppError::ValidationFailed(value.0)
    }
}

impl vstd::std_specs::convert::FromSpecImpl<ValidationErrors> for AppError {
    open spec fn obeys_from_spec() -> bool {
        true
    }

    open spec fn from_spec(value: ValidationErrors) -> AppError {
        AppError::ValidationFailed(value.0)
    }
}

} // verus!
