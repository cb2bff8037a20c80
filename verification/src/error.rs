//! The error the foreign-function layer reports.
use vstd::prelude::*;

verus! {

/// Error returned by the Floresta FFI layer.
#[derive(Debug)]
pub enum FlorestaFfiError {
    /// The daemon failed to start, with an error message.
    StartError { details: String },
}

impl FlorestaFfiError {
    /// The message of the error: the details it carries.
    pub fn to_string(&self) -> (r: String)
        ensures
            r@ == match self {
                FlorestaFfiError::StartError { details } => details@,
            },
    {
        match self {
            FlorestaFfiError::StartError { details } => details.clone(),
        }
    }
}

} // verus!
