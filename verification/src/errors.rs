use vstd::prelude::*;

verus! {

/// The failure taxonomy for one request/response exchange.
///
/// Every fallible operation in this crate (and in the unverified I/O shell
/// around it) reports exactly one of these kinds; none is retried
/// internally — the caller decides whether to retry. Variants carry the
/// underlying library's error text where one exists, so that a failure is
/// never surfaced without a human-readable cause.
#[derive(Debug)]
pub enum HttpError {
    /// The base URL could not be parsed as an absolute URL.
    UrlParse(String),
    /// The relative reference could not be joined onto the parsed base.
    UrlJoin(String),
    /// A request descriptor could not be built; holds the cause.
    RequestBuild(Box<HttpError>),
    /// The connection or send failed for a reason other than the deadline
    /// (DNS failure, connection refused, TLS handshake failure).
    Transport(String),
    /// The overall timeout elapsed before the exchange finished.
    Timeout,
    /// The response status was outside the success range while status
    /// enforcement was on.
    UnexpectedStatus { code: u16, is_server_error: bool },
    /// The response body could not be read before the deadline, or the
    /// underlying stream reported an error.
    BodyRead(String),
    /// A file download failed, on the network or writing the local file.
    Download(String),
}

} // verus!
