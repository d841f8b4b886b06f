//! The reqwest client behind asynchronous writes.
use vstd::prelude::*;

verus! {

#[verifier::external_type_specification]
#[verifier::external_body]
pub struct ExAsyncClient(::reqwest::Client);

#[verifier::external_type_specification]
#[verifier::external_body]
pub struct ExReqwestError(::reqwest::Error);

/// Relies on reqwest's async `ClientBuilder::build`, with the default
/// settings: it fails where the resolver cannot load the system
/// configuration, and documents no panic.
#[verifier::external_body]
fn build_client() -> (r: Result<::reqwest::Client, ::reqwest::Error>) {
    ::reqwest::ClientBuilder::new().build()
}

/// An asynchronous reqwest client for sending write requests.
pub struct ReqwestClient {
    client: ::reqwest::Client,
}

impl ReqwestClient {
    /// A client with reqwest's default settings; fails where reqwest cannot
    /// set one up.
    pub fn new() -> (r: Result<ReqwestClient, ::reqwest::Error>) {
        match build_client() {
            Ok(client) => Ok(ReqwestClient { client }),
            Err(e) => Err(e),
        }
    }

    /// The underlying reqwest client.
    pub fn client(&self) -> (r: &::reqwest::Client) {
        &self.client
    }
}

} // verus!
