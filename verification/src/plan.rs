use vstd::prelude::*;

use crate::errors::HttpError;
use crate::request::get_request;
use crate::request::json_post_request;
use crate::request::spec_is_get_request;
use crate::request::spec_is_json_post_request;
use crate::request::HttpRequest;
use crate::transport::is_https_prefixed;
use crate::transport::select_transport;
use crate::transport::spec_is_https_prefixed;
use crate::transport::Transport;
use crate::urls::join_uri;
use crate::urls::spec_join_ok;
use crate::urls::url_parse;

verus! {

/// The overall timeout, in seconds, that the convenience entry points
/// apply to one whole exchange.
pub const CONVENIENCE_TIMEOUT_SECS: u64 = 15;

/// Everything the I/O shell needs to carry out one convenience call: the
/// request descriptor, the transport to open, the overall timeout, and
/// whether a non-success status fails the call.
#[derive(Debug)]
pub struct SendPlan {
    pub request: HttpRequest,
    pub transport: Transport,
    pub timeout_secs: u64,
    pub check_status_code: bool,
}

/// The transport a convenience call opens for a raw URL: TLS with
/// certificate validation deliberately skipped when the URL starts with
/// `https`, a plain connection otherwise. There is no validated-TLS path
/// through the convenience entry points — the insecure mode is a choice
/// those entry points make, preserved here explicitly.
pub open spec fn spec_convenience_transport(url: Seq<char>) -> Transport {
    if spec_is_https_prefixed(url) {
        Transport::Tls { insecure: true }
    } else {
        Transport::Plain
    }
}

/// What both convenience plans fix besides the request: the transport for
/// the URL, the fixed overall timeout, and no status enforcement.
pub open spec fn spec_convenience_plan(plan: SendPlan, url: Seq<char>) -> bool {
    &&& plan.transport == spec_convenience_transport(url)
    &&& plan.timeout_secs == CONVENIENCE_TIMEOUT_SECS
    &&& !plan.check_status_code
}

/// Plans the convenience GET against `url` joined with `path`: a GET
/// descriptor for the joined URL, sent without status enforcement under
/// the fixed timeout, over the transport the raw URL's scheme selects.
/// Fails exactly as URL joining does, with the same error kinds.
pub fn plan_get(url: &str, path: &str) -> (r: Result<SendPlan, HttpError>)
    ensures
        r is Ok <==> spec_join_ok(url@, path@),
        r matches Ok(plan) ==> spec_is_get_request(plan.request, url@, path@)
            && spec_convenience_plan(plan, url@),
        r matches Err(e) ==> (e is UrlParse <==> url_parse(url@) is None),
        r matches Err(e) ==> (e is UrlJoin <==> url_parse(url@) is Some),
{
    let joined = match join_uri(url, path) {
        Ok(u) => u,
        Err(e) => {
            return Err(e);
        },
    };
    let transport = select_transport(is_https_prefixed(url), true);
    Ok(
        SendPlan {
            request: get_request(joined),
            transport,
            timeout_secs: CONVENIENCE_TIMEOUT_SECS,
            check_status_code: false,
        },
    )
}

/// Plans the convenience JSON-POST of `d` against `url` joined with
/// `path`: a POST descriptor with the JSON content-type header and the
/// body bytes of `d`, sent without status enforcement under the fixed
/// timeout, over the transport the raw URL's scheme selects. Fails exactly
/// as URL joining does, with the same error kinds.
pub fn plan_post(url: &str, path: &str, d: &str) -> (r: Result<SendPlan, HttpError>)
    ensures
        r is Ok <==> spec_join_ok(url@, path@),
        r matches Ok(plan) ==> spec_is_json_post_request(plan.request, url@, path@, d)
            && spec_convenience_plan(plan, url@),
        r matches Err(e) ==> (e is UrlParse <==> url_parse(url@) is None),
        r matches Err(e) ==> (e is UrlJoin <==> url_parse(url@) is Some),
{
    let joined = match join_uri(url, path) {
        Ok(u) => u,
        Err(e) => {
            return Err(e);
        },
    };
    let transport = select_transport(is_https_prefixed(url), true);
    Ok(
        SendPlan {
            request: json_post_request(joined, d),
            transport,
            timeout_secs: CONVENIENCE_TIMEOUT_SECS,
            check_status_code: false,
        },
    )
}

} // verus!
