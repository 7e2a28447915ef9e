//! The forwarder's value types and URL construction.
//!
//! An admitted request is described by its path and optional raw query
//! string; the upstream URL is the fixed endpoint, the path, and — if a
//! query is present — `?` and the query, concatenated byte for byte with no
//! re-encoding. The plaintext listener redirects with the same
//! path-and-query under the HTTPS authority.

use vstd::prelude::*;

verus! {

/// An admitted inbound request: path and optional raw query string.
pub struct ForwardRequest {
    /// The request path, beginning with `/`.
    pub path: String,
    /// The raw query string, without the leading `?`, if one was present.
    pub query: Option<String>,
}

impl ForwardRequest {
    /// The upstream URL this request is forwarded to.
    pub fn upstream_url(&self, endpoint: &str) -> (url: String)
        ensures
            url@ == spec_upstream_url(endpoint@, self.path@, self.query.deep_view()),
    {
        build_upstream_url(endpoint, self.path.as_str(), &self.query)
    }
}

/// What one attempt against the upstream produced.
pub enum ForwardResult {
    /// A response arrived: its status code, full body, and `content-type`
    /// header if the upstream sent one.
    Success { status: u16, body: String, content_type: Option<String> },
    /// A transport-level failure (DNS, connect, TLS, timeout, or an
    /// unreadable body); the upstream's own error statuses are not this.
    Failure,
}

/// The upstream URL for a request: endpoint, path, and optional `?query`.
pub open spec fn spec_upstream_url(
    endpoint: Seq<char>,
    path: Seq<char>,
    query: Option<Seq<char>>,
) -> Seq<char> {
    match query {
        Some(q) => endpoint + path + "?"@ + q,
        None => endpoint + path,
    }
}

/// Build the upstream URL by concatenation, byte for byte: no re-encoding
/// or validation of the path or query.
pub fn build_upstream_url(endpoint: &str, path: &str, query: &Option<String>) -> (url: String)
    ensures
        url@ == spec_upstream_url(endpoint@, path@, query.deep_view()),
{
    let mut url = String::from_str(endpoint);
    url.append(path);
    if let Some(q) = query {
        url.append("?");
        url.append(q.as_str());
    }
    proof {
        assert(url@ =~= spec_upstream_url(endpoint@, path@, query.deep_view()));
    }
    url
}

/// The HTTPS location that plaintext traffic is redirected to: the same
/// path and query under the configured authority.
pub open spec fn spec_redirect_location(
    domain: Seq<char>,
    path: Seq<char>,
    query: Option<Seq<char>>,
) -> Seq<char> {
    "https://"@ + spec_upstream_url(domain, path, query)
}

/// A permanent redirect of one plaintext request to the HTTPS endpoint.
pub struct RedirectReply {
    /// Always 301: a permanent redirect.
    pub status: u16,
    /// The value of the `Location` header.
    pub location: String,
}

/// Redirect a plaintext request to the same path and query under
/// `https://{domain}`, permanently (status 301).
pub fn plaintext_redirect(domain: &str, path: &str, query: &Option<String>) -> (r: RedirectReply)
    ensures
        r.status == 301,
        r.location@ == spec_redirect_location(domain@, path@, query.deep_view()),
{
    let mut location = String::from_str("https://");
    location.append(domain);
    location.append(path);
    if let Some(q) = query {
        location.append("?");
        location.append(q.as_str());
    }
    proof {
        assert(location@ =~= spec_redirect_location(domain@, path@, query.deep_view()));
    }
    RedirectReply { status: 301, location }
}

} // verus!
