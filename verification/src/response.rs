//! What the gateway answers: status, body, and the faults behind a failure.

use crate::store::StoreError;
use vstd::prelude::*;
use vstd::string::StrSliceExecFns;
use vstd::string::StringExecFns;
use vstd::utf8::encode_utf8;

verus! {

/// A fault that ends the handling of one request.
#[derive(Debug)]
pub enum GatewayError {
    /// The capability header is missing or holds another value than the
    /// accepted one.
    AccessDenied,
    /// The upstream could not be reached; the text says why.
    Transport(String),
    /// The upstream answered with another status than 200; the bytes are its
    /// body.
    UpstreamStatus(Vec<u8>),
    /// The upstream answered with a body that is no completion.
    Malformed,
    /// The secret store could not be read.
    Store(StoreError),
}

/// The response that the gateway writes.
#[derive(Debug)]
pub struct GatewayResponse {
    pub status: u16,
    pub body: Vec<u8>,
}

/// A response as a value: its status and the bytes of its body.
pub struct Reply {
    pub status: u16,
    pub body: Seq<u8>,
}

impl View for GatewayResponse {
    type V = Reply;

    open spec fn view(&self) -> Reply {
        Reply { status: self.status, body: self.body@ }
    }
}

/// The build's declared name and version, which the health check reports.
#[derive(Debug)]
pub struct Application {
    pub name: String,
    pub version: String,
}

/// The body of the health check.
pub open spec fn health_text(name: Seq<char>, version: Seq<char>) -> Seq<char> {
    "{\"status\":\"ok\",\"application\":\""@ + name + "\",\"version\":\""@ + version + "\"}"@
}

/// The body that tells a caller that access is denied.
pub open spec fn denial_text() -> Seq<char> {
    "[endpoints] : access forbidden\n"@
}

/// The body that tells a caller that no handler serves the request.
pub open spec fn not_found_text() -> Seq<char> {
    "[endpoints] method/endpoint not implmented\n"@
}

/// What stands in an error body where no cause is given.
pub open spec fn no_cause() -> Seq<char> {
    "None"@
}

/// The body that reports a fault with the text of its cause.
pub open spec fn error_text(cause: Seq<char>) -> Seq<char> {
    "[endpoints] error : "@ + cause + "\n"@
}

/// A reply whose body is the UTF-8 encoding of `text`.
pub open spec fn text_reply(status: u16, text: Seq<char>) -> Reply {
    Reply { status, body: encode_utf8(text) }
}

/// The reply to a health check.
pub open spec fn health_reply(name: Seq<char>, version: Seq<char>) -> Reply {
    text_reply(200, health_text(name, version))
}

/// The reply to a request that no handler serves.
pub open spec fn not_found_reply() -> Reply {
    text_reply(404, not_found_text())
}

/// The reply that a fault is turned into. Only the body of an upstream that
/// answered with another status than 200 is handed on as it came; a
/// malformed reply and a store fault give the same body, which holds
/// nothing of the upstream's bytes.
pub open spec fn error_reply(error: GatewayError) -> Reply {
    match error {
        GatewayError::AccessDenied => text_reply(403, denial_text()),
        GatewayError::Transport(cause) => text_reply(500, error_text(cause@)),
        GatewayError::UpstreamStatus(body) => Reply { status: 500, body: body@ },
        GatewayError::Malformed => text_reply(500, error_text(no_cause())),
        GatewayError::Store(_) => text_reply(500, error_text(no_cause())),
    }
}

/// The reply that ends the completion pipeline: the completion with status
/// 200, or the reply for the fault.
pub open spec fn outcome_reply(outcome: Result<String, GatewayError>) -> Reply {
    match outcome {
        Ok(text) => text_reply(200, text@),
        Err(error) => error_reply(error),
    }
}

/// A response with `text` as its body.
fn text_response(status: u16, text: &str) -> (r: GatewayResponse)
    ensures
        r@ == text_reply(status, text@),
{
    GatewayResponse { status, body: text.as_bytes_vec() }
}

/// A body that reports a fault with the text of its cause.
fn error_body(cause: &str) -> (r: String)
    ensures
        r@ == error_text(cause@),
{
    let mut text = String::from_str("[endpoints] error : ");
    text.append(cause);
    text.append("\n");
    text
}

/// The response to a health check: status 200 and a JSON object with the
/// application's name and version.
pub fn health_response(application: &Application) -> (r: GatewayResponse)
    ensures
        r@ == health_reply(application.name@, application.version@),
{
    let mut text = String::from_str("{\"status\":\"ok\",\"application\":\"");
    text.append(application.name.as_str());
    text.append("\",\"version\":\"");
    text.append(application.version.as_str());
    text.append("\"}");
    text_response(200, text.as_str())
}

/// The response to a request that no handler serves: status 404 and a fixed
/// body.
pub fn not_found_response() -> (r: GatewayResponse)
    ensures
        r@ == not_found_reply(),
{
    text_response(404, "[endpoints] method/endpoint not implmented\n")
}

/// The response that reports a fault.
pub fn error_response(error: GatewayError) -> (r: GatewayResponse)
    ensures
        r@ == error_reply(error),
{
    match error {
        GatewayError::AccessDenied => text_response(403, "[endpoints] : access forbidden\n"),
        GatewayError::Transport(cause) => {
            let text = error_body(cause.as_str());
            text_response(500, text.as_str())
        },
        GatewayError::UpstreamStatus(body) => GatewayResponse { status: 500, body },
        GatewayError::Malformed => {
            let text = error_body("None");
            text_response(500, text.as_str())
        },
        GatewayError::Store(_) => {
            let text = error_body("None");
            text_response(500, text.as_str())
        },
    }
}

/// The response that ends the completion pipeline.
pub fn respond(outcome: Result<String, GatewayError>) -> (r: GatewayResponse)
    ensures
        r@ == outcome_reply(outcome),
{
    match outcome {
        Ok(text) => text_response(200, text.as_str()),
        Err(error) => error_response(error),
    }
}

} // verus!
