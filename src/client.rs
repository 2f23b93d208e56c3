//! Addresses of the search engine's endpoints.

use crate::text::{decimal, decimal_string, opt_text};
use vstd::prelude::*;

verus! {

#[verifier::external_type_specification]
#[verifier::external_body]
pub struct ExParseError(url::ParseError);

/// The scheme and the host, when there is one, of the URL that `s` parses
/// to; nothing when `s` is not a URL.
pub uninterp spec fn url_parts(s: Seq<char>) -> Option<(Seq<char>, Option<Seq<char>>)>;

/// Relies on `url::Url::parse`, `url::Url::scheme` and `url::Url::host_str`:
/// the scheme and host of the URL that `s` parses to, or the parse error;
/// which one depends on `s` alone.
#[verifier::external_body]
fn parse_scheme_host(s: &str) -> (r: Result<(String, Option<String>), url::ParseError>)
    ensures
        match r {
            Ok(parts) => url_parts(s@) == Some((parts.0@, opt_text(parts.1))),
            Err(_) => url_parts(s@) is None,
        },
{
    match url::Url::parse(s) {
        Ok(u) => Ok((u.scheme().to_string(), u.host_str().map(|h| h.to_string()))),
        Err(e) => Err(e),
    }
}

/// Why a root endpoint could not be formed.
#[derive(Debug)]
pub enum RootUrlError {
    /// The text is not a URL.
    UrlParseError(url::ParseError),
    /// The URL has no host.
    InvalidHostError,
}

/// `scheme://host:port`.
pub open spec fn root_text(scheme: Seq<char>, host: Seq<char>, port: nat) -> Seq<char> {
    scheme + "://"@ + host + ":"@ + decimal(port)
}

/// The root endpoint of a URL of scheme `scheme` and host `host`, on `port`;
/// a URL without host has none.
pub fn root_from_parts(scheme: &str, host: Option<String>, port: u32) -> (r: Result<
    String,
    RootUrlError,
>)
    ensures
        match host {
            Some(h) => r matches Ok(s) && s@ == root_text(scheme@, h@, port as nat),
            None => r matches Err(RootUrlError::InvalidHostError),
        },
{
    match host {
        Some(h) => {
            let mut s = String::from_str(scheme);
            s.append("://");
            s.append(h.as_str());
            s.append(":");
            let p = decimal_string(port);
            s.append(p.as_str());
            Ok(s)
        },
        None => Err(RootUrlError::InvalidHostError),
    }
}

/// The root endpoint for `url` on `port`: the scheme and host of `url`, any
/// port, path or query it holds left out.
pub fn root_url(url: &str, port: u32) -> (r: Result<String, RootUrlError>)
    ensures
        match url_parts(url@) {
            Some((scheme, Some(host))) => r matches Ok(s) && s@ == root_text(
                scheme,
                host,
                port as nat,
            ),
            Some((_, None)) => r matches Err(RootUrlError::InvalidHostError),
            None => r matches Err(RootUrlError::UrlParseError(_)),
        },
{
    match parse_scheme_host(url) {
        Ok((scheme, host)) => root_from_parts(scheme.as_str(), host, port),
        Err(e) => Err(RootUrlError::UrlParseError(e)),
    }
}

/// The endpoint of the core `name` under the root endpoint `base`.
pub fn core_url(base: &str, name: &str) -> (r: String)
    ensures
        r@ == base@ + "/solr/"@ + name@,
{
    let mut s = String::from_str(base);
    s.append("/solr/");
    s.append(name);
    s
}

/// The update body that commits what was posted, optimizing the index when
/// `optimize` holds.
pub fn commit_body(optimize: bool) -> (r: String)
    ensures
        r@ == if optimize {
            "{\"optimize\": {}}"@
        } else {
            "{\"commit\": {}}"@
        },
{
    if optimize {
        String::from_str("{\"optimize\": {}}")
    } else {
        String::from_str("{\"commit\": {}}")
    }
}

/// The update body that rolls back what was posted since the last commit.
pub fn rollback_body() -> (r: String)
    ensures
        r@ == "{\"rollback\": {}}"@,
{
    String::from_str("{\"rollback\": {}}")
}

/// The update body that deletes every document.
pub fn truncate_body() -> (r: String)
    ensures
        r@ == "{\"delete\":{\"query\": \"*:*\"}}"@,
{
    String::from_str("{\"delete\":{\"query\": \"*:*\"}}")
}

} // verus!
