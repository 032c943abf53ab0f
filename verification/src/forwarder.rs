//! The upstream forwarder: the request that the gateway sends, built from
//! the secret store and the inbound body.

use crate::dispatch::Method;
use crate::response::GatewayError;
use crate::store::{get_item, SecretStore, StoreError};
use crate::transformer::UpstreamOutcome;
use vstd::prelude::*;
use vstd::string::StringExecFns;
use vstd::utf8::{encode_utf8, valid_utf8};

verus! {

/// The key of the upstream's address in the secret store.
pub open spec fn url_key() -> Seq<char> {
    "base_url"@
}

/// The key of the bearer token in the secret store.
pub open spec fn token_key() -> Seq<char> {
    "api_key"@
}

/// The value of the `Authorization` header for a bearer token.
pub open spec fn bearer_text(token: Seq<char>) -> Seq<char> {
    "Bearer "@ + token
}

/// One request to the upstream. Certificates are accepted unchecked where
/// `accept_invalid_certs` is set.
#[derive(Debug)]
pub struct OutboundRequest {
    pub method: Method,
    pub url: String,
    /// Name and value of each header, in the order in which they are set.
    pub headers: Vec<(String, String)>,
    pub body: Vec<u8>,
    pub accept_invalid_certs: bool,
}

/// `request` is the `POST` of `data` to `url` with `token`: the bearer
/// token first, then the content type of JSON, the body unchanged, and
/// certificates accepted unchecked.
pub open spec fn is_post_request(
    request: OutboundRequest,
    url: Seq<char>,
    token: Seq<char>,
    data: Seq<u8>,
) -> bool {
    &&& request.method == Method::Post
    &&& request.url@ == url
    &&& request.headers@.len() == 2
    &&& request.headers@[0].0@ == "Authorization"@
    &&& request.headers@[0].1@ == bearer_text(token)
    &&& request.headers@[1].0@ == "Content-Type"@
    &&& request.headers@[1].1@ == "application/json"@
    &&& request.body@ == data
    &&& request.accept_invalid_certs
}

/// `request` is the `GET` of `url` with `token`: the bearer token as its
/// one header, no body, and certificates accepted unchecked.
pub open spec fn is_get_request(request: OutboundRequest, url: Seq<char>, token: Seq<char>) -> bool {
    &&& request.method == Method::Get
    &&& request.url@ == url
    &&& request.headers@.len() == 1
    &&& request.headers@[0].0@ == "Authorization"@
    &&& request.headers@[0].1@ == bearer_text(token)
    &&& request.body@.len() == 0
    &&& request.accept_invalid_certs
}

/// The fault of reading address and token from a store, address first:
/// `None` where the store holds both.
pub open spec fn credentials_fault(store: Option<Map<Seq<char>, Seq<char>>>) -> Option<
    Option<Seq<char>>,
> {
    match store {
        None => Some(None),
        Some(m) => if !m.contains_key(url_key()) {
            Some(Some(url_key()))
        } else if !m.contains_key(token_key()) {
            Some(Some(token_key()))
        } else {
            None
        },
    }
}

/// `error` reports `fault`: a store that was never populated where the
/// fault names no key, else the key that the store lacks.
pub open spec fn reports_fault(error: GatewayError, fault: Option<Seq<char>>) -> bool {
    match fault {
        None => error matches GatewayError::Store(StoreError::Uninitialized),
        Some(key) => error matches GatewayError::Store(StoreError::KeyNotFound(k)) && k@ == key,
    }
}

/// Reads the upstream's address and the bearer token, address first.
fn credentials(store: &SecretStore) -> (r: Result<(String, String), GatewayError>)
    ensures
        match credentials_fault(store@) {
            Some(fault) => r matches Err(error) && reports_fault(error, fault),
            None => r matches Ok(pair) && pair.0@ == store@->Some_0[url_key()] && pair.1@
                == store@->Some_0[token_key()],
        },
{
    let url = match get_item(store, "base_url") {
        Ok(url) => url,
        Err(error) => { return Err(GatewayError::Store(error)); },
    };
    let token = match get_item(store, "api_key") {
        Ok(token) => token,
        Err(error) => { return Err(GatewayError::Store(error)); },
    };
    Ok((url, token))
}

/// The `Authorization` header for a bearer token.
fn bearer_header(token: &str) -> (r: (String, String))
    ensures
        r.0@ == "Authorization"@,
        r.1@ == bearer_text(token@),
{
    let mut value = String::from_str("Bearer ");
    value.append(token);
    (String::from_str("Authorization"), value)
}

/// Builds the `POST` that forwards `data` to the upstream. Fails with the
/// store's fault where the store was never populated or lacks the address
/// or the token.
pub fn build_post_request(store: &SecretStore, data: Vec<u8>) -> (r: Result<
    OutboundRequest,
    GatewayError,
>)
    ensures
        match credentials_fault(store@) {
            Some(fault) => r matches Err(error) && reports_fault(error, fault),
            None => r matches Ok(request) && is_post_request(
                request,
                store@->Some_0[url_key()],
                store@->Some_0[token_key()],
                data@,
            ),
        },
{
    let (url, token) = match credentials(store) {
        Ok(pair) => pair,
        Err(error) => { return Err(error); },
    };
    let mut headers: Vec<(String, String)> = Vec::new();
    headers.push(bearer_header(token.as_str()));
    headers.push((String::from_str("Content-Type"), String::from_str("application/json")));
    Ok(OutboundRequest { method: Method::Post, url, headers, body: data, accept_invalid_certs: true })
}

/// Builds the `GET` to the upstream. Fails as `build_post_request` does.
pub fn build_get_request(store: &SecretStore) -> (r: Result<OutboundRequest, GatewayError>)
    ensures
        match credentials_fault(store@) {
            Some(fault) => r matches Err(error) && reports_fault(error, fault),
            None => r matches Ok(request) && is_get_request(
                request,
                store@->Some_0[url_key()],
                store@->Some_0[token_key()],
            ),
        },
{
    let (url, token) = match credentials(store) {
        Ok(pair) => pair,
        Err(error) => { return Err(error); },
    };
    let mut headers: Vec<(String, String)> = Vec::new();
    headers.push(bearer_header(token.as_str()));
    Ok(
        OutboundRequest {
            method: Method::Get,
            url,
            headers,
            body: Vec::new(),
            accept_invalid_certs: true,
        },
    )
}

#[verifier::external_type_specification]
#[verifier::external_body]
pub struct ExUtf8Error(core::str::Utf8Error);

/// `core::str::from_utf8`. Nothing is proved of it: it succeeds exactly on
/// valid UTF-8, and the text it gives has the bytes it was given.
#[verifier::external_body]
fn text_of_bytes(bytes: &[u8]) -> (r: Result<&str, core::str::Utf8Error>)
    ensures
        r is Ok <==> valid_utf8(bytes@),
        r is Ok ==> encode_utf8(r->Ok_0@) == bytes@,
{
    core::str::from_utf8(bytes)
}

/// Ends a `GET` to the upstream: a failed call is a transport fault with
/// its cause; the body of an answer is returned as text, whatever its
/// status, and is malformed where it is no UTF-8.
pub fn process_get_call(outcome: UpstreamOutcome) -> (r: Result<String, GatewayError>)
    ensures
        match outcome {
            UpstreamOutcome::Failed(cause) => r matches Err(GatewayError::Transport(text))
                && text@ == cause@,
            UpstreamOutcome::Replied { status, body } => if valid_utf8(body@) {
                r matches Ok(text) && encode_utf8(text@) == body@
            } else {
                r matches Err(GatewayError::Malformed)
            },
        },
{
    match outcome {
        UpstreamOutcome::Failed(cause) => Err(GatewayError::Transport(cause)),
        UpstreamOutcome::Replied { status, body } => match text_of_bytes(body.as_slice()) {
            Ok(text) => Ok(text.to_owned()),
            Err(_) => Err(GatewayError::Malformed),
        },
    }
}

} // verus!
