//! The closed error taxonomy and the status-code contract: how a response's
//! status is mapped to a typed outcome.

use vstd::prelude::*;

verus! {

/// Everything a client call can fail with.
#[derive(Debug, Clone, PartialEq, Eq)]
pub enum ApiError {
    /// A non-2xx status not otherwise handled as "absent"; carries the
    /// original status and body for diagnostics.
    Http { status: u16, body: String },
    /// The server accepted the query but reported a logical error; carries
    /// the first reported message.
    GraphQl { message: String },
    /// A response that violates the protocol: a query envelope with neither
    /// data nor errors, or an unparsable link header.
    Protocol,
}

/// What to do with a fetch-style response.
#[derive(Debug, Eq, PartialEq, Copy, Clone, Structural)]
pub enum FetchOutcome {
    /// Status 200: decode the body as the typed resource.
    Decode,
    /// Status 404: the resource does not exist; a successful, absent result.
    Absent,
    /// Any other status: a hard error.
    Fail,
}

/// The status-code contract for fetch-style operations: 200 yields the
/// decoded value, 404 yields an absent result rather than an error, and any
/// other status is a hard error.
pub fn interpret_fetch(status: u16) -> (r: FetchOutcome)
    ensures
        r == (if status == 200 {
            FetchOutcome::Decode
        } else if status == 404 {
            FetchOutcome::Absent
        } else {
            FetchOutcome::Fail
        }),
{
    if status == 200 {
        FetchOutcome::Decode
    } else if status == 404 {
        FetchOutcome::Absent
    } else {
        FetchOutcome::Fail
    }
}

/// Whether a status is a success, in the 2xx range. Any other status on a
/// dispatched call is surfaced as an error carrying status and body.
pub fn is_success(status: u16) -> (r: bool)
    ensures
        r == (200 <= status < 300),
{
    200 <= status && status < 300
}

/// The error a non-2xx response surfaces as.
pub fn status_error(status: u16, body: String) -> (r: ApiError)
    ensures
        r == (ApiError::Http { status, body }),
{
    ApiError::Http { status, body }
}

} // verus!
