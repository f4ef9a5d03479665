//! Error values surfaced by the library.
use vstd::prelude::*;

verus! {

/// A builder was finished while a required field was still unset.
#[derive(Debug, Clone, Copy, PartialEq, Eq, Structural)]
pub enum BuildError {
    MissingField,
}

impl BuildError {
    /// The human-readable description of this error.
    pub fn message(&self) -> (r: String)
        ensures
            r@ == "missing required field"@,
    {
        "missing required field".to_owned()
    }
}

/// An operation against the remote service failed.
#[derive(Debug)]
pub enum SdkError {
    /// The service answered with a client- or server-error status; the body
    /// text is carried verbatim as the error detail.
    Remote { status: u16, body: String },
    /// A response body did not have the expected shape.
    Decode,
}

impl SdkError {
    /// The error detail: for a remote failure, the body text as the service
    /// sent it.
    pub fn detail(&self) -> (r: String)
        ensures
            match self {
                SdkError::Remote { body, .. } => r@ == body@,
                SdkError::Decode => r@ == "response body did not match the expected shape"@,
            },
    {
        match self {
            SdkError::Remote { body, .. } => body.clone(),
            SdkError::Decode => "response body did not match the expected shape".to_owned(),
        }
    }
}

/// Splits an HTTP outcome the way every client operation does: a client- or
/// server-error status fails with the body text as the error detail, and any
/// other status hands the body on for decoding.
pub fn response_outcome(status: u16, body: String) -> (r: Result<String, SdkError>)
    ensures
        match r {
            Result::Ok(b) => !(400 <= status < 600) && b == body,
            Result::Err(e) => 400 <= status < 600 && e == (SdkError::Remote {
                status,
                body,
            }),
        },
{
    if 400 <= status && status < 600 {
        Err(SdkError::Remote { status, body })
    } else {
        Ok(body)
    }
}

} // verus!
