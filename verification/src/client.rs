//! The RPC client factory: one client per endpoint, built from its URL.
//!
//! Construction parses the URL and builds the handle locally; it touches the
//! network in no case. A URL that does not parse — the empty string never
//! does — is a fatal configuration error.

use vstd::prelude::*;
use ethers::providers::{Http, Provider};

verus! {

/// Which of the two benchmarked endpoints a value belongs to.
#[derive(Debug, Clone, Copy, PartialEq, Eq)]
pub enum Endpoint {
    /// The remote hosted endpoint.
    Remote,
    /// The local node endpoint.
    Local,
}

/// Why a run failed: a configuration error (the endpoint URL did not parse,
/// found at client construction) or a transport error (a request against the
/// endpoint failed). Every failure is fatal; there is no retry.
#[derive(Debug, Clone, Copy, PartialEq, Eq)]
pub enum BenchError {
    /// The named endpoint's URL did not parse; found before any request.
    Config(Endpoint),
    /// A request against the named endpoint failed.
    Rpc(Endpoint),
}

#[verifier::external_type_specification]
#[verifier::external_body]
#[verifier::reject_recursive_types(P)]
pub struct ExProvider<P>(Provider<P>);

#[verifier::external_type_specification]
#[verifier::external_body]
pub struct ExHttp(Http);

/// Whether `Url::parse` accepts this spelling as a URL. Parsing depends on
/// the characters alone, so acceptance is a function of them.
pub uninterp spec fn url_accepted(url: Seq<char>) -> bool;

/// Relies on `Provider::<Http>::try_from`, which parses the URL with
/// `Url::parse` and builds a client bound to it, without touching the network.
/// It succeeds exactly when the URL parses; the empty string is not a valid
/// URL (`Url::parse` refuses a relative URL without a base), so it yields
/// `None`.
#[verifier::external_body]
fn provider_from_url(url: &str) -> (r: Option<Provider<Http>>)
    ensures
        r is Some <==> url_accepted(url@),
        url@.len() == 0 ==> r is None,
{
    Provider::<Http>::try_from(url).ok()
}

/// Build the RPC client for one endpoint: the client bound to `url` exactly
/// when the URL parses, or a configuration error naming the endpoint when it
/// does not. An empty URL never parses, so it always fails here, before any
/// request.
pub fn build_client(url: &String, endpoint: Endpoint) -> (r: Result<Provider<Http>, BenchError>)
    ensures
        r is Ok <==> url_accepted(url@),
        r is Err ==> r == Err::<Provider<Http>, BenchError>(BenchError::Config(endpoint)),
        url@.len() == 0 ==> r is Err,
{
    match provider_from_url(url.as_str()) {
        Some(p) => Ok(p),
        None => Err(BenchError::Config(endpoint)),
    }
}

} // verus!
