use vstd::prelude::*;
use vstd::string::StrSliceExecFns;

verus! {

/// The fixed connect timeout, in seconds: a sub-budget for establishing
/// the connection, independent of the caller's overall timeout.
pub const CONNECT_TIMEOUT_SECS: u64 = 5;

/// The transport of one call: a plain connection, or a TLS-capable one.
/// `insecure` marks the deliberately unsafe mode that skips certificate
/// validation altogether — a stand-in for "ignore cert errors" tooling
/// flags, never a softened default.
#[derive(Clone, Copy, Debug, PartialEq, Eq, Structural)]
pub enum Transport {
    Plain,
    Tls { insecure: bool },
}

/// Whether the string begins with `https`, the scheme test the convenience
/// entry points apply to the raw URL.
pub open spec fn spec_is_https_prefixed(s: Seq<char>) -> bool {
    s.len() >= 5 && s[0] == 'h' && s[1] == 't' && s[2] == 't' && s[3] == 'p' && s[4] == 's'
}

/// Whether `s` begins with `https`.
pub fn is_https_prefixed(s: &str) -> (r: bool)
    ensures
        r == spec_is_https_prefixed(s@),
{
    let n = s.unicode_len();
    if n < 5 {
        return false;
    }
    s.get_char(0) == 'h' && s.get_char(1) == 't' && s.get_char(2) == 't' && s.get_char(3) == 'p'
        && s.get_char(4) == 's'
}

/// Chooses the transport of one call: TLS exactly for an HTTPS target,
/// carrying the caller's insecure flag; a plain connection otherwise.
pub fn select_transport(is_https: bool, insecure: bool) -> (t: Transport)
    ensures
        is_https ==> t == (Transport::Tls { insecure }),
        !is_https ==> t == Transport::Plain,
{
    if is_https {
        Transport::Tls { insecure }
    } else {
        Transport::Plain
    }
}

} // verus!
