//! Addresses of the core: the HTTP base URL of its API and the host that
//! receives heartbeat datagrams. Parsing and serialising URLs is the `url`
//! crate's work; this module decides what to ask of it.
use vstd::prelude::*;

use crate::numeric::{nat_text, u32_text};
use crate::text::{chars_of, push_char, string_from_chars};

verus! {

/// The port the core's HTTP API listens on.
pub const ROCKET_PORT: u16 = 8000;

/// Whether `url::Url::parse` accepts the text.
pub uninterp spec fn url_parses(input: Seq<char>) -> bool;

/// The host (`Url::host_str`) of the URL parsed from the text.
pub uninterp spec fn url_host(input: Seq<char>) -> Option<Seq<char>>;

/// The serialisation of the URL parsed from the text after
/// `Url::set_port(Some(port))`; `None` where `set_port` refuses.
pub uninterp spec fn url_text_with_port(input: Seq<char>, port: u16) -> Option<Seq<char>>;

/// Calls `url::Url::parse` on the text: whether it gives a URL.
#[verifier::external_body]
fn url_parse_ok(input: &str) -> (r: bool)
    ensures
        r == url_parses(input@),
{
    url::Url::parse(input).is_ok()
}

/// Calls `url::Url::parse` on the text and then `Url::host_str`: `None`
/// where the text does not parse, else the parsed URL's host.
#[verifier::external_body]
fn parse_url_host(input: &str) -> (r: Option<Option<String>>)
    ensures
        match r {
            None => !url_parses(input@),
            Some(h) => url_parses(input@) && match (h, url_host(input@)) {
                (Some(a), Some(b)) => a@ == b,
                (None, None) => true,
                _ => false,
            },
        },
{
    url::Url::parse(input).ok().map(|u| u.host_str().map(|h| h.to_string()))
}

/// Calls `url::Url::parse` on the text, then `Url::set_port(Some(port))`,
/// and serialises the result: `None` where either call fails.
#[verifier::external_body]
fn parse_url_text_with_port(input: &str, port: u16) -> (r: Option<String>)
    ensures
        match r {
            None => !url_parses(input@) || url_text_with_port(input@, port) is None,
            Some(t) => url_parses(input@) && url_text_with_port(input@, port) == Some(t@),
        },
{
    url::Url::parse(input).ok().and_then(|mut u| u.set_port(Some(port)).ok().map(|_| u.to_string()))
}

/// Why a base URL cannot give the API's address.
#[derive(Debug, Clone, Copy, PartialEq, Eq, Structural)]
pub enum BaseUrlError {
    /// Neither the text nor `http://` before it parses as a URL.
    InvalidBaseUrl,
    /// The URL takes no port.
    CannotSetPort,
}

/// Why a base URL gives no host for heartbeat datagrams.
#[derive(Debug, Clone, Copy, PartialEq, Eq, Structural)]
pub enum UdpHostError {
    /// Neither the text nor `http://` before it parses as a URL.
    InvalidUrl,
    /// The URL has no host.
    MissingHost,
}

/// `s` without the slashes it ends with.
pub open spec fn trim_end_slashes(s: Seq<char>) -> Seq<char>
    decreases s.len(),
{
    if s.len() > 0 && s.last() == '/' {
        trim_end_slashes(s.drop_last())
    } else {
        s
    }
}

/// The text to parse: the base itself where it parses, else the base
/// after `http://`, so that a bare host such as `core` is accepted.
pub open spec fn url_candidate(base: Seq<char>) -> Seq<char> {
    if url_parses(base) {
        base
    } else {
        "http://"@ + base
    }
}

/// The API's base URL for a configured core location: the URL with port
/// 8000, whatever port it named, serialised without trailing slashes.
pub open spec fn rocket_base_url(base: Seq<char>) -> Result<Seq<char>, BaseUrlError> {
    let c = url_candidate(base);
    if !url_parses(c) {
        Err(BaseUrlError::InvalidBaseUrl)
    } else {
        match url_text_with_port(c, ROCKET_PORT) {
            Some(t) => Ok(trim_end_slashes(t)),
            None => Err(BaseUrlError::CannotSetPort),
        }
    }
}

/// The host that heartbeat datagrams go to, for a configured core location.
pub open spec fn heartbeat_host(base: Seq<char>) -> Result<Seq<char>, UdpHostError> {
    let c = url_candidate(base);
    if !url_parses(c) {
        Err(UdpHostError::InvalidUrl)
    } else {
        match url_host(c) {
            Some(h) => Ok(h),
            None => Err(UdpHostError::MissingHost),
        }
    }
}

/// The text without the slashes it ends with.
pub fn trim_trailing_slashes(s: &str) -> (r: String)
    ensures
        r@ == trim_end_slashes(s@),
{
    let v = chars_of(s);
    let mut end: usize = v.len();
    proof {
        assert(v@.subrange(0, v.len() as int) =~= v@);
    }
    while end > 0 && v[end - 1] == '/'
        invariant
            end <= v.len(),
            trim_end_slashes(v@) == trim_end_slashes(v@.subrange(0, end as int)),
        decreases end,
    {
        proof {
            let t = v@.subrange(0, end as int);
            assert(t.drop_last() =~= v@.subrange(0, end - 1));
        }
        end = end - 1;
    }
    proof {
        let t = v@.subrange(0, end as int);
        assert(trim_end_slashes(t) == t);
    }
    let mut out: Vec<char> = Vec::new();
    let mut i: usize = 0;
    while i < end
        invariant
            end <= v.len(),
            i <= end,
            out@ == v@.subrange(0, i as int),
        decreases end - i,
    {
        out.push(v[i]);
        proof {
            assert(v@.subrange(0, i + 1) =~= v@.subrange(0, i as int).push(v@[i as int]));
        }
        i = i + 1;
    }
    proof {
        assert(v@ =~= s@);
    }
    string_from_chars(&out)
}

/// The base after `http://`.
pub fn with_http_scheme(base: &str) -> (r: String)
    ensures
        r@ == "http://"@ + base@,
{
    let mut r = "http://".to_owned();
    r.append(base);
    r
}

fn candidate_parses(base: &str) -> (r: (String, bool))
    ensures
        r.0@ == url_candidate(base@),
        r.1 == url_parses(url_candidate(base@)),
{
    if url_parse_ok(base) {
        (base.to_owned(), true)
    } else {
        let c = with_http_scheme(base);
        let ok = url_parse_ok(c.as_str());
        (c, ok)
    }
}

/// Turns `core`, `http://core` or `http://core:8080` into
/// `http://core:8000`, the base URL of the core's API.
pub fn http_with_rocket_port(base: &str) -> (r: Result<String, BaseUrlError>)
    ensures
        match (r, rocket_base_url(base@)) {
            (Ok(a), Ok(b)) => a@ == b,
            (Err(a), Err(b)) => a == b,
            _ => false,
        },
{
    let (c, ok) = candidate_parses(base);
    if !ok {
        return Err(BaseUrlError::InvalidBaseUrl);
    }
    match parse_url_text_with_port(c.as_str(), ROCKET_PORT) {
        Some(t) => Ok(trim_trailing_slashes(t.as_str())),
        None => Err(BaseUrlError::CannotSetPort),
    }
}

/// The host that heartbeat datagrams go to: `core` for `core` or for
/// `http://core:8000`.
pub fn udp_host(base_url: &str) -> (r: Result<String, UdpHostError>)
    ensures
        match (r, heartbeat_host(base_url@)) {
            (Ok(a), Ok(b)) => a@ == b,
            (Err(a), Err(b)) => a == b,
            _ => false,
        },
{
    let (c, ok) = candidate_parses(base_url);
    if !ok {
        return Err(UdpHostError::InvalidUrl);
    }
    match parse_url_host(c.as_str()) {
        Some(Some(h)) => Ok(h),
        Some(None) => Err(UdpHostError::MissingHost),
        None => Err(UdpHostError::InvalidUrl),
    }
}

/// The `host:port` address that datagrams are sent to.
pub fn udp_address(host: &str, port: u32) -> (r: String)
    ensures
        r@ == host@ + seq![':'] + nat_text(port as nat),
{
    let mut r = host.to_owned();
    push_char(&mut r, ':');
    let digits = u32_text(port);
    let mut i: usize = 0;
    let ghost start = r@;
    while i < digits.len()
        invariant
            i <= digits.len(),
            r@ == start + digits@.subrange(0, i as int),
        decreases digits.len() - i,
    {
        push_char(&mut r, digits[i]);
        proof {
            assert(digits@.subrange(0, i + 1) =~= digits@.subrange(0, i as int).push(
                digits@[i as int],
            ));
        }
        i = i + 1;
    }
    proof {
        assert(digits@.subrange(0, digits.len() as int) =~= digits@);
        assert(r@ =~= host@ + seq![':'] + nat_text(port as nat));
    }
    r
}

} // verus!
