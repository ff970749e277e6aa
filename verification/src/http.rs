//! The HTTP client used to reach model-serving endpoints: endpoints on the local
//! machine are reached directly, all others through the system's proxy settings.

use vstd::prelude::*;

use crate::text::{has_prefix, str_starts_with};

verus! {

#[verifier::external_type_specification]
#[verifier::external_body]
pub struct ExClientBuilder(reqwest::ClientBuilder);

#[verifier::external_type_specification]
#[verifier::external_body]
pub struct ExClient(reqwest::Client);

#[verifier::external_type_specification]
#[verifier::external_body]
pub struct ExReqwestError(reqwest::Error);

/// Whether a client builder is set to reach every host directly: it holds no
/// proxy and does not use the system's proxy settings.
pub uninterp spec fn builder_bypasses_proxy(builder: reqwest::ClientBuilder) -> bool;

/// Whether a client reaches every host directly: its list of proxies is empty.
pub uninterp spec fn client_bypasses_proxy(client: reqwest::Client) -> bool;

/// The message of a reqwest error, as its `Display` renders it.
pub uninterp spec fn reqwest_error_text(error: reqwest::Error) -> Seq<char>;

/// `reqwest::Client::builder`: a builder with reqwest's default configuration,
/// which holds no proxy but uses the system's proxy settings.
#[verifier::external_body]
fn client_builder() -> (builder: reqwest::ClientBuilder)
    ensures
        !builder_bypasses_proxy(builder),
{
    reqwest::Client::builder()
}

/// `reqwest::ClientBuilder::no_proxy`: clears the proxies and turns off the system proxy.
#[verifier::external_body]
fn builder_no_proxy(builder: reqwest::ClientBuilder) -> (res: reqwest::ClientBuilder)
    ensures
        builder_bypasses_proxy(res),
{
    builder.no_proxy()
}

/// `reqwest::ClientBuilder::build`: fails when the TLS backend or the resolver
/// cannot be set up, which depends on the machine; when it succeeds, the client's
/// proxies are the builder's, plus the system's when the builder uses them.
#[verifier::external_body]
fn builder_build(builder: reqwest::ClientBuilder) -> (res: Result<reqwest::Client, reqwest::Error>)
    ensures
        res matches Ok(c) ==> client_bypasses_proxy(c) == builder_bypasses_proxy(builder),
{
    builder.build()
}

/// `<reqwest::Error as ToString>::to_string`: the error's message.
#[verifier::external_body]
fn reqwest_error_message(error: &reqwest::Error) -> (m: String)
    ensures
        m@ == reqwest_error_text(*error),
{
    error.to_string()
}

/// Why no client could be built, with reqwest's message.
#[derive(Debug, PartialEq, Eq)]
pub struct ClientBuildError {
    pub message: String,
}

/// Whether the endpoint is on the local machine: it starts with
/// `http://localhost` or `http://127.0.0.1`.
pub open spec fn is_localhost_spec(api_endpoint: Seq<char>) -> bool {
    has_prefix(api_endpoint, "http://localhost"@) || has_prefix(api_endpoint, "http://127.0.0.1"@)
}

/// Whether the endpoint is on the local machine.
pub fn is_localhost(api_endpoint: &str) -> (local: bool)
    ensures
        local == is_localhost_spec(api_endpoint@),
{
    str_starts_with(api_endpoint, "http://localhost") || str_starts_with(
        api_endpoint,
        "http://127.0.0.1",
    )
}

/// The client built by reqwest, or its error with reqwest's message.
pub fn client_from_build(built: Result<reqwest::Client, reqwest::Error>) -> (res: Result<
    reqwest::Client,
    ClientBuildError,
>)
    ensures
        built matches Ok(c) ==> res == Ok::<reqwest::Client, ClientBuildError>(c),
        built matches Err(e) ==> (res matches Err(err) && err.message@ == reqwest_error_text(e)),
{
    match built {
        Ok(client) => Ok(client),
        Err(e) => Err(ClientBuildError { message: reqwest_error_message(&e) }),
    }
}

/// A client for `api_endpoint`: local endpoints bypass every proxy, all others
/// use the system's proxy settings. Fails only where reqwest cannot build a
/// client, with reqwest's message.
pub fn create_reqwest_client(api_endpoint: &str) -> (client: Result<reqwest::Client, ClientBuildError>)
    ensures
        client matches Ok(c) ==> client_bypasses_proxy(c) == is_localhost_spec(api_endpoint@),
        client matches Err(err) ==> exists|e: reqwest::Error| err.message@ == reqwest_error_text(e),
{
    let builder = client_builder();
    let builder = if is_localhost(api_endpoint) {
        builder_no_proxy(builder)
    } else {
        builder
    };
    let built = builder_build(builder);
    let ghost outcome = built;
    let res = client_from_build(built);
    proof {
        if let Err(e) = outcome {
            assert(res matches Err(err) && err.message@ == reqwest_error_text(e));
        }
    }
    res
}

} // verus!
