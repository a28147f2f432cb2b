use vstd::prelude::*;

use crate::errors::HttpError;

verus! {

/// The serialization of `url::Url::parse(s)`: `Some` of the normalized
/// absolute URL when the parse succeeds, `None` when it fails. The parse
/// result depends on the input characters alone.
pub uninterp spec fn url_parse(s: Seq<char>) -> Option<Seq<char>>;

/// The serialization of `url::Url::parse(base).unwrap().join(path)`, for a
/// `base` that parses: `Some` of the resolved absolute URL when the join
/// succeeds, `None` when the relative reference is malformed for that base.
/// A `Url` is determined by its serialization, so the result depends on
/// `base` and `path` alone.
pub uninterp spec fn url_join(base: Seq<char>, path: Seq<char>) -> Option<Seq<char>>;

/// Relies on `url::Url::parse`: its result is a function of the input
/// string alone, and a returned URL's serialization parses back to an URL
/// with that same serialization (the crate maintains this as an internal
/// invariant of `Url`).
#[verifier::external_body]
fn parse_url(s: &str) -> (r: Result<String, String>)
    ensures
        r is Ok <==> url_parse(s@) is Some,
        r matches Ok(ser) ==> url_parse(s@) == Some(ser@),
        r matches Ok(ser) ==> url_parse(ser@) == Some(ser@),
{
    match url::Url::parse(s) {
        Ok(u) => Ok(String::from(u)),
        Err(e) => Err(e.to_string()),
    }
}

/// Relies on `url::Url::join`, with `url::Url::parse` rebuilding the base
/// URL from its serialization: the join result is a function of the base
/// URL's serialization and the relative reference alone.
#[verifier::external_body]
fn join_url(base: &str, path: &str) -> (r: Result<String, String>)
    requires
        url_parse(base@) is Some,
    ensures
        r is Ok <==> url_join(base@, path@) is Some,
        r matches Ok(ser) ==> url_join(base@, path@) == Some(ser@),
{
    let u = match url::Url::parse(base) {
        Ok(u) => u,
        Err(e) => return Err(e.to_string()),
    };
    match u.join(path) {
        Ok(j) => Ok(String::from(j)),
        Err(e) => Err(e.to_string()),
    }
}

/// Whether joining `path` onto the base URL `url` succeeds: the base must
/// parse, and a non-empty path must join onto it.
pub open spec fn spec_join_ok(url: Seq<char>, path: Seq<char>) -> bool {
    &&& url_parse(url) is Some
    &&& (path.len() == 0 || url_join(url_parse(url)->Some_0, path) is Some)
}

/// The serialization of the joined absolute URL: the normalized base itself
/// for an empty path, the resolved reference otherwise.
pub open spec fn spec_joined(url: Seq<char>, path: Seq<char>) -> Seq<char>
    recommends
        spec_join_ok(url, path),
{
    if path.len() == 0 {
        url_parse(url)->Some_0
    } else {
        url_join(url_parse(url)->Some_0, path)->Some_0
    }
}

/// Combines a base URL and a path into one absolute URL.
///
/// An empty path returns the parsed base unchanged; a non-empty path is
/// resolved against the base by standard relative-reference resolution (a
/// leading `/` anchors at the host root, no leading `/` resolves against
/// the base's directory). Pure — no network or I/O side effect.
pub fn join_uri(url: &str, path: &str) -> (r: Result<String, HttpError>)
    ensures
        r is Ok <==> spec_join_ok(url@, path@),
        r matches Ok(joined) ==> joined@ == spec_joined(url@, path@),
        r matches Err(e) ==> (e is UrlParse <==> url_parse(url@) is None),
        r matches Err(e) ==> (e is UrlJoin <==> url_parse(url@) is Some),
{
    let base = match parse_url(url) {
        Ok(b) => b,
        Err(m) => {
            return Err(HttpError::UrlParse(m));
        },
    };
    if path.is_empty() {
        return Ok(base);
    }
    match join_url(base.as_str(), path) {
        Ok(joined) => Ok(joined),
        Err(m) => Err(HttpError::UrlJoin(m)),
    }
}

} // verus!
