//! HTTP client support for the transcription service.  The requests
//! themselves are outside work; the client's configuration, URL assembly
//! and status classification are verified here.

pub mod errors;

use vstd::prelude::*;

verus! {

/// HTTP client configuration for requests to the transcription service.
#[derive(Debug, Clone)]
pub struct HttpClient {
    pub base_url: String,
    pub verbose: bool,
}

impl HttpClient {
    /// Creates a new client with base URL and verbosity.
    pub fn new(base_url: String, verbose: bool) -> (c: Self)
        ensures
            c.base_url == base_url,
            c.verbose == verbose,
    {
        HttpClient { base_url, verbose }
    }

    /// The full URL for an endpoint under the base URL.
    pub fn endpoint_url(&self, endpoint: &str) -> (u: String)
        ensures
            u@ == self.base_url@ + "/"@ + endpoint@,
    {
        let mut u = self.base_url.clone();
        u.append("/");
        u.append(endpoint);
        u
    }
}

/// Whether a reachability probe of the service's base URL counts as
/// reachable: a plain success, or a not-found answer from a server that is
/// nonetheless up.
pub fn probe_status_reachable(status: u16) -> (r: bool)
    ensures
        r == (status == 200 || status == 404),
{
    status == 200 || status == 404
}

/// Whether a service response carries a usable body: only a plain success
/// does.
pub fn response_status_ok(status: u16) -> (r: bool)
    ensures
        r == (status == 200),
{
    status == 200
}

} // verus!
