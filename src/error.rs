use vstd::prelude::*;

verus! {

/// Why a log retrieval failed.
#[derive(Debug)]
pub enum LogError {
    /// Credentials or connection settings for a source were unavailable.
    Configuration(String),
    /// The request did not complete (connection, timeout, cancellation).
    Transport(String),
    /// The server answered with a status outside 200..=299; the body is kept.
    HttpStatus { status: u16, body: String },
    /// The body is not the expected document, or a value has the wrong type.
    Parse,
    /// A well-formed time-series answer that holds no series.
    EmptyResult,
    /// A time-series row whose cells do not line up with the columns.
    SchemaMismatch,
}

/// Whether an HTTP status code means success.
pub open spec fn is_success(status: u16) -> bool {
    200 <= status <= 299
}

/// Passes a response body on when its status is a success, else reports the
/// status with the body.
pub fn check_status(status: u16, body: String) -> (r: Result<String, LogError>)
    ensures
        is_success(status) ==> r is Ok && r->Ok_0@ == body@,
        !is_success(status) ==> (match r {
            Err(LogError::HttpStatus { status: s, body: b }) => s == status && b@ == body@,
            _ => false,
        }),
{
    if 200 <= status && status <= 299 {
        Ok(body)
    } else {
        Err(LogError::HttpStatus { status, body })
    }
}

} // verus!
