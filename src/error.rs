//! The errors that an operation on releases reports.
use vstd::prelude::*;

verus! {

/// Why an operation failed.
#[derive(Clone, Debug)]
pub enum ReleasesError {
    /// The request could not be carried out: no response was obtained.
    Transport { message: String },
    /// The service answered with a status other than success.
    Remote { status: u16, message: String },
    /// The response body did not have the expected shape.
    Decode { message: String },
    /// The upload target built from the release's template is not a valid URL;
    /// no upload was attempted.
    UriConstruction { target: String },
}

/// Whether an HTTP status reports success.
pub open spec fn is_success(status: u16) -> bool {
    200 <= status < 300
}

/// Maps the status of a response to the outcome of an operation that expects
/// no value back: success for a status in the 2xx range, else a remote error
/// that carries the status and the service's message.
pub fn check_status(status: u16, message: String) -> (r: Result<(), ReleasesError>)
    ensures
        is_success(status) ==> r == Ok::<(), ReleasesError>(()),
        !is_success(status) ==> r == Err::<(), ReleasesError>(
            ReleasesError::Remote { status, message },
        ),
{
    if 200 <= status && status < 300 {
        Ok(())
    } else {
        Err(ReleasesError::Remote { status, message })
    }
}

} // verus!
