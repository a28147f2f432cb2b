use vstd::prelude::*;

use crate::errors::HttpError;

verus! {

/// Whether a status code is in the HTTP success range (2xx).
pub open spec fn spec_is_success_status(code: u16) -> bool {
    200 <= code < 300
}

/// Whether a status code is in the HTTP server-error range (5xx).
pub open spec fn spec_is_server_error_status(code: u16) -> bool {
    500 <= code < 600
}

/// Whether `code` lies in the success range (2xx).
pub fn is_success_status(code: u16) -> (r: bool)
    ensures
        r == spec_is_success_status(code),
{
    200 <= code && code < 300
}

/// Whether `code` lies in the server-error range (5xx).
pub fn is_server_error_status(code: u16) -> (r: bool)
    ensures
        r == spec_is_server_error_status(code),
{
    500 <= code && code < 600
}

/// The status-code policy of one exchange: a success status always passes;
/// a non-success status fails with `UnexpectedStatus` — carrying the code
/// and whether it is a server error — exactly when enforcement is on, and
/// passes (for the caller to log and read the body anyway) when it is off.
pub fn check_status(code: u16, enforce: bool) -> (r: Result<(), HttpError>)
    ensures
        r is Ok <==> (spec_is_success_status(code) || !enforce),
        r matches Err(e) ==> (e matches HttpError::UnexpectedStatus {
            code: c,
            is_server_error: s,
        } && c == code && s == spec_is_server_error_status(code)),
{
    if !is_success_status(code) && enforce {
        Err(
            HttpError::UnexpectedStatus {
                code,
                is_server_error: is_server_error_status(code),
            },
        )
    } else {
        Ok(())
    }
}

} // verus!
