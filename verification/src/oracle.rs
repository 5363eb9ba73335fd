//! The identity oracle's client side: where the oracle lives, how a client
//! for it is set up, directly or through a proxy, and how the failures of the
//! HTTP library are sorted.
//!
//! Sending the request and reading the answer is left to the caller. The
//! client is built here, with the `reqwest` crate.

use crate::identity::{Failure, FailureKind, FailureView};
use std::time::Duration;
use vstd::prelude::*;

verus! {

/// Address of the identity oracle. One GET on it answers with the caller's
/// externally observed identity as JSON.
pub const ORACLE_URL: &'static str = "https://speed.cloudflare.com/meta";

/// Seconds after which a request to the oracle is given up.
pub const REQUEST_TIMEOUT_SECONDS: u64 = 10;

/// The user agent sent with every request; the oracle may turn away a
/// request that names none.
pub const USER_AGENT: &'static str =
    "Mozilla/5.0 (Windows NT 10.0; Win64; x64) AppleWebKit/537.36 (KHTML, like Gecko) Chrome/120.0.0.0 Safari/537.36";

/// Trusted declaration of `reqwest::Client`, which holds a connection pool
/// and its settings. Nothing is known of what is inside.
#[verifier::external_type_specification]
#[verifier::external_body]
pub struct ExClient(reqwest::Client);

/// Trusted declaration of `reqwest::ClientBuilder`.
#[verifier::external_type_specification]
#[verifier::external_body]
pub struct ExClientBuilder(reqwest::ClientBuilder);

/// Trusted declaration of `reqwest::Proxy`.
#[verifier::external_type_specification]
#[verifier::external_body]
pub struct ExProxy(reqwest::Proxy);

/// Trusted declaration of `reqwest::Error`.
#[verifier::external_type_specification]
#[verifier::external_body]
pub struct ExError(reqwest::Error);

/// What `reqwest::Proxy::all` returns for `address`: a proxy for all traffic
/// at that address, or the error with which the address is turned down. The
/// address is parsed as a URL, as it stands or, where it names no scheme,
/// with `http://` in front; nothing but its text decides.
pub uninterp spec fn proxy_all_of(address: Seq<char>) -> Result<reqwest::Proxy, reqwest::Error>;

/// Whether `address` is taken as the address of a proxy.
pub open spec fn proxy_address_accepted(address: Seq<char>) -> bool {
    proxy_all_of(address) is Ok
}

/// The builder that `reqwest::ClientBuilder::timeout` makes of `builder` for
/// a timeout of `seconds` whole seconds.
pub uninterp spec fn timeout_set(builder: reqwest::ClientBuilder, seconds: u64) -> reqwest::ClientBuilder;

/// The builder that `reqwest::ClientBuilder::user_agent` makes of `builder`
/// for the user agent `agent`.
pub uninterp spec fn agent_set(builder: reqwest::ClientBuilder, agent: Seq<char>) -> reqwest::ClientBuilder;

/// The builder that `reqwest::ClientBuilder::proxy` makes of `builder` when
/// `proxy` is added to it.
pub uninterp spec fn proxy_set(builder: reqwest::ClientBuilder, proxy: reqwest::Proxy) -> reqwest::ClientBuilder;

/// The text that `error` displays.
pub uninterp spec fn error_words(error: reqwest::Error) -> Seq<char>;

/// What `reqwest::Error::is_decode` says of `error`.
pub uninterp spec fn error_is_decode(error: reqwest::Error) -> bool;

/// What `reqwest::Error::is_timeout` says of `error`.
pub uninterp spec fn error_is_timeout(error: reqwest::Error) -> bool;

/// Trusted. `reqwest::Proxy::all`. What it returns depends on the address
/// alone.
#[verifier::external_body]
fn proxy_all(address: &str) -> (proxy: Result<reqwest::Proxy, reqwest::Error>)
    ensures
        proxy == proxy_all_of(address@),
{
    reqwest::Proxy::all(address)
}

/// Trusted. `reqwest::Client::builder`: a builder with default settings.
#[verifier::external_body]
fn client_builder() -> reqwest::ClientBuilder {
    reqwest::Client::builder()
}

/// Trusted. `reqwest::ClientBuilder::timeout`, in whole seconds. The builder
/// that comes back depends on the builder and the seconds alone.
#[verifier::external_body]
fn with_timeout(builder: reqwest::ClientBuilder, seconds: u64) -> (out: reqwest::ClientBuilder)
    ensures
        out == timeout_set(builder, seconds),
{
    builder.timeout(Duration::from_secs(seconds))
}

/// Trusted. `reqwest::ClientBuilder::user_agent`. The builder that comes back
/// depends on the builder and the user agent alone.
#[verifier::external_body]
fn with_user_agent(builder: reqwest::ClientBuilder, agent: &str) -> (out: reqwest::ClientBuilder)
    ensures
        out == agent_set(builder, agent@),
{
    builder.user_agent(agent)
}

/// Trusted. `reqwest::ClientBuilder::proxy`. The builder that comes back
/// depends on the builder and the proxy alone.
#[verifier::external_body]
fn with_proxy(builder: reqwest::ClientBuilder, proxy: reqwest::Proxy) -> (out: reqwest::ClientBuilder)
    ensures
        out == proxy_set(builder, proxy),
{
    builder.proxy(proxy)
}

/// Trusted. `reqwest::ClientBuilder::build`: the client, or the error that
/// kept it from being set up. The outcome depends on the machine as well as
/// on the settings, so nothing is stated of it.
#[verifier::external_body]
fn build(builder: reqwest::ClientBuilder) -> Result<reqwest::Client, reqwest::Error> {
    builder.build()
}

/// Trusted. The text that `reqwest::Error` displays. It depends on the error
/// alone.
#[verifier::external_body]
fn error_text(error: &reqwest::Error) -> (text: String)
    ensures
        text@ == error_words(*error),
{
    error.to_string()
}

/// Trusted. `reqwest::Error::is_decode`: whether the error arose while the
/// body of a response was read or decoded.
#[verifier::external_body]
fn is_decode(error: &reqwest::Error) -> (decoding: bool)
    ensures
        decoding == error_is_decode(*error),
{
    error.is_decode()
}

/// Trusted. `reqwest::Error::is_timeout`: whether the error goes back to a
/// timeout.
#[verifier::external_body]
fn is_timeout(error: &reqwest::Error) -> (timed_out: bool)
    ensures
        timed_out == error_is_timeout(*error),
{
    error.is_timeout()
}

/// The failure to build a client, with the collaborator's words for it.
pub fn construction_failure(detail: String) -> (failure: Failure)
    ensures
        failure@ == (FailureView { kind: FailureKind::Construction, detail: detail@ }),
{
    Failure { kind: FailureKind::Construction, detail }
}

/// The kind of failure that an error of a request that was sent stands for.
pub open spec fn request_failure_kind(decoding: bool, timed_out: bool) -> FailureKind {
    if decoding && !timed_out {
        FailureKind::Parse
    } else {
        FailureKind::Network
    }
}

/// The failure of a request that was sent: a parse failure where the answer
/// arrived and could not be decoded, a network failure otherwise. A timeout
/// is a network failure also where it struck while the answer was read.
pub fn request_failure(decoding: bool, timed_out: bool, detail: String) -> (failure: Failure)
    ensures
        failure@ == (FailureView {
            kind: request_failure_kind(decoding, timed_out),
            detail: detail@,
        }),
{
    if decoding && !timed_out {
        Failure { kind: FailureKind::Parse, detail }
    } else {
        Failure { kind: FailureKind::Network, detail }
    }
}

/// Sorts an error of a request that was sent through a client: a parse
/// failure where the error arose in decoding and goes back to no timeout, a
/// network failure otherwise, with the error's own words as the detail. The
/// error never counts as a failure to build the client.
pub fn fetch_failure(error: &reqwest::Error) -> (failure: Failure)
    ensures
        failure@ == (FailureView {
            kind: request_failure_kind(error_is_decode(*error), error_is_timeout(*error)),
            detail: error_words(*error),
        }),
{
    let decoding = is_decode(error);
    let timed_out = is_timeout(error);
    request_failure(decoding, timed_out, error_text(error))
}

/// What becomes of an attempt to set up a client: the client as it came,
/// or a construction failure with the error's own words as the detail.
pub fn client_or_failure(built: Result<reqwest::Client, reqwest::Error>) -> (out: Result<
    reqwest::Client,
    Failure,
>)
    ensures
        match built {
            Ok(client) => out == Ok::<reqwest::Client, Failure>(client),
            Err(error) => out matches Err(failure) && failure@ == (FailureView {
                kind: FailureKind::Construction,
                detail: error_words(error),
            }),
        },
{
    match built {
        Ok(client) => Ok(client),
        Err(error) => Err(construction_failure(error_text(&error))),
    }
}

/// A route as mathematical data: the address of the proxy it goes through,
/// if it goes through one.
pub open spec fn route_view(route: Option<&str>) -> Option<Seq<char>> {
    match route {
        Some(address) => Some(address@),
        None => None,
    }
}

/// The settings that every client for the oracle gets, on top of `base`: the
/// request timeout, then the user agent.
pub open spec fn common_settings(base: reqwest::ClientBuilder) -> reqwest::ClientBuilder {
    agent_set(timeout_set(base, REQUEST_TIMEOUT_SECONDS), USER_AGENT@)
}

/// The builder that stands for `route`, or the failure that `route` leads
/// to, on top of `base`: the common settings, and for a route through a
/// proxy the proxy at the given address. An address that is not taken as a
/// proxy address gives a construction failure with the words of its refusal.
pub open spec fn prepared(base: reqwest::ClientBuilder, route: Option<Seq<char>>) -> Result<
    reqwest::ClientBuilder,
    FailureView,
> {
    match route {
        None => Ok(common_settings(base)),
        Some(address) => match proxy_all_of(address) {
            Ok(proxy) => Ok(proxy_set(common_settings(base), proxy)),
            Err(error) => Err(
                FailureView { kind: FailureKind::Construction, detail: error_words(error) },
            ),
        },
    }
}

/// The failure that `route` leads to before anything is set up: that of an
/// address that is not taken as a proxy address.
pub open spec fn prepared_failure(route: Option<Seq<char>>) -> Option<FailureView> {
    match route {
        Some(address) => match proxy_all_of(address) {
            Err(error) => Some(
                FailureView { kind: FailureKind::Construction, detail: error_words(error) },
            ),
            Ok(_) => None,
        },
        None => None,
    }
}

/// Makes the builder for one route to the oracle ready: sets the request
/// timeout and the user agent of this module on `base`, and for a route
/// through a proxy adds the proxy at the given address. Nothing is set up
/// yet; an address that is not taken as a proxy address ends the attempt
/// with a construction failure.
pub fn prepare(base: reqwest::ClientBuilder, route: Option<&str>) -> (ready: Result<
    reqwest::ClientBuilder,
    Failure,
>)
    ensures
        match prepared(base, route_view(route)) {
            Ok(builder) => ready == Ok::<reqwest::ClientBuilder, Failure>(builder),
            Err(failure) => ready matches Err(found) && found@ == failure,
        },
{
    let builder = with_timeout(base, REQUEST_TIMEOUT_SECONDS);
    let builder = with_user_agent(builder, USER_AGENT);
    match route {
        None => Ok(builder),
        Some(address) => match proxy_all(address) {
            Ok(proxy) => Ok(with_proxy(builder, proxy)),
            Err(error) => Err(construction_failure(error_text(&error))),
        },
    }
}

/// Builds the client for one route to the oracle: through the proxy at the
/// given address, or directly where none is given. A builder with default
/// settings is made ready by `prepare` and handed to
/// `reqwest::ClientBuilder::build`; what comes back is sorted by
/// `client_or_failure`.
///
/// An address that `reqwest` does not take as a proxy address gives a
/// construction failure, and so does a client that cannot be set up. Whether
/// a client can be set up depends on the machine.
pub fn build_client(route: Option<&str>) -> (built: Result<reqwest::Client, Failure>)
    ensures
        prepared_failure(route_view(route)) matches Some(failure) ==> (built matches Err(found)
            && found@ == failure),
        built matches Err(found) ==> found@.kind == FailureKind::Construction,
{
    match prepare(client_builder(), route) {
        Ok(builder) => client_or_failure(build(builder)),
        Err(failure) => Err(failure),
    }
}

} // verus!
