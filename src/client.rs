//! Turning a query descriptor into the request that is sent to the daemon.
use vstd::prelude::*;

use crate::api::{header_texts, Get};
use crate::SnapdClientError;

verus! {

/// The base that every query's path and query string is resolved against. No network address
/// is ever dialled: every request goes to the daemon's socket.
pub const BASE_URL: &'static str = "http://localhost/";

/// The most connections that the pool lends out at once.
pub const POOL_SIZE: usize = 16;

/// The value of the `Host` header: the socket has no host name.
pub const HOST: &'static str = "localhost";

/// The media type of the daemon's answers.
pub const JSON_CONTENT: &'static str = "application/json";

/// The text of the URL that `reference` denotes, resolved against the URL `base`.
pub uninterp spec fn joined_url(base: Seq<char>, reference: Seq<char>) -> Option<Seq<char>>;

/// Relies on url's `Url::parse`, applied to `base`, then `Url::join`, applied to `reference`:
/// the URL they give, written out, or `None` where either fails. The result depends on the two
/// texts alone.
#[verifier::external_body]
fn join_url(base: &str, reference: &str) -> (r: Option<String>)
    ensures
        match r {
            Some(u) => joined_url(base@, reference@) == Some(u@),
            None => joined_url(base@, reference@).is_none(),
        },
{
    match url::Url::parse(base) {
        Ok(b) => match b.join(reference) {
            Ok(u) => Some(String::from(u)),
            Err(_) => None,
        },
        Err(_) => None,
    }
}

/// A `GET` request with an empty body, as plain values.
#[derive(Debug, PartialEq, Eq)]
pub struct RequestParts {
    pub uri: String,
    pub headers: Vec<(String, String)>,
}

/// The headers of the request for `request`: the placeholder host, then those of the call.
pub open spec fn request_headers<G: Get>(request: &G) -> Seq<(Seq<char>, Seq<char>)> {
    seq![("host"@, HOST@)] + request.headers_spec()
}

impl RequestParts {
    /// The headers as plain values.
    pub open spec fn headers_view(&self) -> Seq<(Seq<char>, Seq<char>)> {
        header_texts(self.headers@)
    }
}

/// The URL of `request`: its path and query resolved against `BASE_URL`.
pub fn request_url<G: Get>(request: &G) -> (r: Option<String>)
    ensures
        match r {
            Some(u) => joined_url(BASE_URL@, request.reference_spec()) == Some(u@),
            None => joined_url(BASE_URL@, request.reference_spec()).is_none(),
        },
{
    let reference = request.reference();
    join_url(BASE_URL, reference.as_str())
}

/// The request that asks the daemon for `request`: its URL, the placeholder host and the
/// headers of the call. It fails only where the URL cannot be formed.
pub fn build_request<G: Get>(request: &G) -> (r: Result<RequestParts, SnapdClientError>)
    ensures
        match joined_url(BASE_URL@, request.reference_spec()) {
            Some(u) => r matches Ok(p) && p.uri@ == u && p.headers_view() == request_headers(request),
            None => r is Err,
        },
{
    let uri = match request_url(request) {
        Some(u) => u,
        None => {
            return Err(SnapdClientError);
        },
    };
    let mut headers: Vec<(String, String)> = Vec::new();
    headers.push((String::from_str("host"), String::from_str(HOST)));
    let mut extra = request.headers();
    let ghost first = headers@;
    let ghost added = extra@;
    headers.append(&mut extra);
    let r = RequestParts { uri, headers };
    assert(header_texts(r.headers@) =~= header_texts(first) + header_texts(added));
    assert(r.headers_view() =~= request_headers(request));
    Ok(r)
}

} // verus!
