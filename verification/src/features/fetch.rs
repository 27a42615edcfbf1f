//! The interface through which the host answers the requests of scripts.

use vstd::prelude::*;
use vstd::string::*;

verus! {

/// A request that a script made.
#[derive(Debug)]
pub struct FetchRequest {
    url: String,
}

impl FetchRequest {
    pub closed spec fn url(&self) -> Seq<char> {
        self.url@
    }

    pub fn new(url: &str) -> (request: FetchRequest)
        ensures
            request.url() == url@,
    {
        FetchRequest { url: String::from_str(url) }
    }

    pub fn get_url(&self) -> (url: &str)
        ensures
            url@ == self.url(),
    {
        self.url.as_str()
    }
}

/// The host's answer to a request, read piece by piece.
pub trait FetchResponse {
    fn get_http_status(&self) -> u16;

    fn get_header(&self, name: &str) -> Option<&str>;

    /// The next piece of the body, `None` after the last.
    fn read(&mut self) -> Option<Vec<u8>>;
}

/// A response as the provider hands it over.
pub struct FetchResponseAdapter {
    pub inner: Box<dyn FetchResponse>,
}

impl FetchResponseAdapter {
    pub fn new(response: Box<dyn FetchResponse>) -> (adapter: Self)
        ensures
            adapter == (FetchResponseAdapter { inner: response }),
    {
        Self { inner: response }
    }
}

/// Answers requests. The host implements it.
pub trait FetchResponseProvider {
    fn provide(&self, request: &FetchRequest) -> FetchResponseAdapter;
}

/// A provider as the runtime holds it.
pub struct FetchResponseProviderAdapter {
    pub inner: Box<dyn FetchResponseProvider>,
}

impl FetchResponseProviderAdapter {
    pub fn new(provider: Box<dyn FetchResponseProvider>) -> (adapter: Self)
        ensures
            adapter == (FetchResponseProviderAdapter { inner: provider }),
    {
        Self { inner: provider }
    }
}

} // verus!
