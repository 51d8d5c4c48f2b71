//! The ways an export run can fail.

use vstd::prelude::*;

verus! {

/// Why an export run failed.
///
/// The run stops at the first of these it meets and reports it unchanged;
/// partial results are discarded.
#[derive(Debug)]
pub enum FetchError {
    /// Listing or fetching failed at the provider boundary: the provider
    /// process exited unsuccessfully, produced malformed output, or the
    /// output could not be decoded.
    Provider { message: String },
    /// A fetched payload failed a structural check at aggregation time.
    Validation { message: String },
    /// A worker thread ended abnormally, distinct from any data error.
    Pool { message: String },
}

impl FetchError {
    /// The human-readable description this error carries.
    pub open spec fn message_view(&self) -> Seq<char> {
        match self {
            FetchError::Provider { message } => message@,
            FetchError::Validation { message } => message@,
            FetchError::Pool { message } => message@,
        }
    }

    /// The human-readable description this error carries.
    pub fn message(&self) -> (r: &String)
        ensures
            r@ == self.message_view(),
    {
        match self {
            FetchError::Provider { message } => message,
            FetchError::Validation { message } => message,
            FetchError::Pool { message } => message,
        }
    }

    /// A provider-boundary failure with the given description.
    pub fn provider(message: String) -> (r: FetchError)
        ensures
            r == (FetchError::Provider { message }),
    {
        FetchError::Provider { message }
    }
}

} // verus!
