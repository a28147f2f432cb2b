use vstd::prelude::*;
use vstd::string::StrSliceExecFns;
use vstd::string::StringSliceAdditionalSpecFns;

use crate::errors::HttpError;
use crate::urls::join_uri;
use crate::urls::spec_join_ok;
use crate::urls::spec_joined;
use crate::urls::url_parse;

verus! {

/// The two request methods this layer builds.
#[derive(Clone, Copy, Debug, PartialEq, Eq, Structural)]
pub enum HttpMethod {
    Get,
    Post,
}

/// A request descriptor: method, absolute target URL, header set, and body
/// bytes. Built once and immutable after construction; the unverified I/O
/// shell turns it into the underlying client library's request and sends
/// it at most once — there is no retry or mutate-and-resend.
#[derive(Debug)]
pub struct HttpRequest {
    pub method: HttpMethod,
    pub url: String,
    pub headers: Vec<(String, String)>,
    pub body: Vec<u8>,
}

/// What a well-built GET descriptor for `url` and `path` looks like: GET
/// method, the joined absolute URL as target, no custom header, empty body.
pub open spec fn spec_is_get_request(req: HttpRequest, url: Seq<char>, path: Seq<char>) -> bool {
    &&& req.method is Get
    &&& req.url@ == spec_joined(url, path)
    &&& req.headers@.len() == 0
    &&& req.body@.len() == 0
}

/// What a well-built JSON-POST descriptor for `url`, `path` and body `d`
/// looks like: POST method, the joined absolute URL as target, exactly one
/// header `content-type: application/json`, and the body bytes of `d`.
pub open spec fn spec_is_json_post_request(
    req: HttpRequest,
    url: Seq<char>,
    path: Seq<char>,
    d: &str,
) -> bool {
    &&& req.method is Post
    &&& req.url@ == spec_joined(url, path)
    &&& req.headers@.len() == 1
    &&& req.headers@[0].0@ == "content-type"@
    &&& req.headers@[0].1@ == "application/json"@
    &&& req.body@ == d.spec_bytes()
}

/// Builds the GET descriptor for an already-joined absolute URL.
pub(crate) fn get_request(joined: String) -> (req: HttpRequest)
    ensures
        req.method is Get,
        req.url@ == joined@,
        req.headers@.len() == 0,
        req.body@.len() == 0,
{
    HttpRequest { method: HttpMethod::Get, url: joined, headers: Vec::new(), body: Vec::new() }
}

/// Builds the JSON-POST descriptor for an already-joined absolute URL and
/// the body string `d`.
pub(crate) fn json_post_request(joined: String, d: &str) -> (req: HttpRequest)
    ensures
        req.method is Post,
        req.url@ == joined@,
        req.headers@.len() == 1,
        req.headers@[0].0@ == "content-type"@,
        req.headers@[0].1@ == "application/json"@,
        req.body@ == d.spec_bytes(),
{
    let mut headers: Vec<(String, String)> = Vec::new();
    headers.push(("content-type".to_owned(), "application/json".to_owned()));
    HttpRequest { method: HttpMethod::Post, url: joined, headers, body: d.as_bytes_vec() }
}

/// Creates a simple HTTP GET request descriptor with no header and no
/// body, targeting the joined URL. Fails with `RequestBuild` — carrying
/// the URL failure as its cause — when the base cannot be parsed or the
/// path cannot be joined onto it.
pub fn create_get(url: &str, path: &str) -> (r: Result<HttpRequest, HttpError>)
    ensures
        r is Ok <==> spec_join_ok(url@, path@),
        r matches Ok(req) ==> spec_is_get_request(req, url@, path@),
        r matches Err(e) ==> (e matches HttpError::RequestBuild(cause) && ((*cause) is UrlParse
            <==> url_parse(url@) is None) && ((*cause) is UrlJoin <==> url_parse(url@) is Some)),
{
    let joined = match join_uri(url, path) {
        Ok(u) => u,
        Err(e) => {
            return Err(HttpError::RequestBuild(Box::new(e)));
        },
    };
    Ok(get_request(joined))
}

/// Creates a simple HTTP POST request descriptor with a
/// `content-type: application/json` header and the given body, targeting
/// the joined URL. Fails with `RequestBuild` — carrying the URL failure as
/// its cause — when the base cannot be parsed or the path cannot be joined
/// onto it.
pub fn create_json_post(url: &str, path: &str, d: &str) -> (r: Result<HttpRequest, HttpError>)
    ensures
        r is Ok <==> spec_join_ok(url@, path@),
        r matches Ok(req) ==> spec_is_json_post_request(req, url@, path@, d),
        r matches Err(e) ==> (e matches HttpError::RequestBuild(cause) && ((*cause) is UrlParse
            <==> url_parse(url@) is None) && ((*cause) is UrlJoin <==> url_parse(url@) is Some)),
{
    let joined = match join_uri(url, path) {
        Ok(u) => u,
        Err(e) => {
            return Err(HttpError::RequestBuild(Box::new(e)));
        },
    };
    Ok(json_post_request(joined, d))
}

} // verus!
