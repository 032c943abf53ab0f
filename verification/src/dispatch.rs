//! The dispatcher: which handler a request goes to, and whether it may pass.

use crate::response::{
    error_reply, error_response, health_reply, health_response, not_found_reply,
    not_found_response, Application, GatewayError, GatewayResponse, Reply,
};
use crate::text::{contains_bytes, contains_seq};
use vstd::prelude::*;
use vstd::utf8::encode_utf8;

verus! {

/// The upstream dialect that a gateway is built for.
#[derive(Clone, Copy, Debug, PartialEq, Eq, Structural)]
pub enum Provider {
    /// Serves without an access check, offers the health check to `GET`
    /// only, and reads every upstream reply as a completion.
    OpenAiCompatible,
    /// Asks for the capability header, offers the health check to `GET` and
    /// `POST`, and reads only a reply with status 200 as a completion.
    GrokCompatible,
}

/// The method of an inbound request, as far as the dispatcher tells methods
/// apart.
#[derive(Clone, Copy, Debug, PartialEq, Eq, Structural)]
pub enum Method {
    Get,
    Post,
    Other,
}

/// The handler that a request is sent to.
#[derive(Clone, Copy, Debug, PartialEq, Eq, Structural)]
pub enum Route {
    /// The completion pipeline.
    Completions,
    /// The health check.
    Health,
    /// No handler.
    NotFound,
}

/// Whether a request may be forwarded.
#[derive(Clone, Copy, Debug, PartialEq, Eq, Structural)]
pub enum AccessDecision {
    Granted,
    Denied,
}

/// The bytes that mark the path of the completion pipeline.
pub open spec fn completions_marker() -> Seq<u8> {
    encode_utf8("/v1/chat/completions"@)
}

/// The bytes that mark the path of the health check.
pub open spec fn health_marker() -> Seq<u8> {
    encode_utf8("/v1/health"@)
}

/// The handler for a method and the UTF-8 bytes of a path. A path is matched by
/// the marker it contains; where it contains both, the completion pipeline
/// comes first.
pub open spec fn route_of(provider: Provider, method: Method, path: Seq<u8>) -> Route {
    match method {
        Method::Post => if contains_seq(path, completions_marker()) {
            Route::Completions
        } else if provider == Provider::GrokCompatible && contains_seq(path, health_marker()) {
            Route::Health
        } else {
            Route::NotFound
        },
        Method::Get => if contains_seq(path, health_marker()) {
            Route::Health
        } else {
            Route::NotFound
        },
        Method::Other => Route::NotFound,
    }
}

/// Selects the handler for an inbound request.
pub fn route(provider: Provider, method: Method, path: &str) -> (r: Route)
    ensures
        r == route_of(provider, method, encode_utf8(path@)),
{
    let bytes = path.as_bytes();
    match method {
        Method::Post => {
            if contains_bytes(bytes, "/v1/chat/completions".as_bytes()) {
                Route::Completions
            } else if provider == Provider::GrokCompatible && contains_bytes(
                bytes,
                "/v1/health".as_bytes(),
            ) {
                Route::Health
            } else {
                Route::NotFound
            }
        },
        Method::Get => {
            if contains_bytes(bytes, "/v1/health".as_bytes()) {
                Route::Health
            } else {
                Route::NotFound
            }
        },
        Method::Other => Route::NotFound,
    }
}

/// The one value of the capability header that is accepted.
pub open spec fn accepted_capability() -> Seq<char> {
    "valid"@
}

/// The decision on a capability header: a provider without the access check
/// grants every request; the other grants exactly the accepted value.
pub open spec fn access_of(provider: Provider, capability: Option<Seq<char>>) -> AccessDecision {
    if provider == Provider::OpenAiCompatible || capability == Some(accepted_capability()) {
        AccessDecision::Granted
    } else {
        AccessDecision::Denied
    }
}

/// The view of an optional header value.
pub open spec fn header_view(capability: Option<&str>) -> Option<Seq<char>> {
    match capability {
        Some(value) => Some(value@),
        None => None,
    }
}

/// Decides whether a request with this capability header may be forwarded.
pub fn check_access(provider: Provider, capability: Option<&str>) -> (r: AccessDecision)
    ensures
        r == access_of(provider, header_view(capability)),
{
    match provider {
        Provider::OpenAiCompatible => AccessDecision::Granted,
        Provider::GrokCompatible => match capability {
            Some(value) => {
                if value.to_owned() == "valid".to_owned() {
                    AccessDecision::Granted
                } else {
                    AccessDecision::Denied
                }
            },
            None => AccessDecision::Denied,
        },
    }
}

/// What the gateway does with a request before anything is sent upstream.
#[derive(Debug)]
pub enum Step {
    /// Answer at once; nothing is sent upstream.
    Respond(GatewayResponse),
    /// Read the request's body and forward it upstream.
    Forward,
}

/// A step as a value.
pub enum StepView {
    Respond(Reply),
    Forward,
}

impl View for Step {
    type V = StepView;

    open spec fn view(&self) -> StepView {
        match self {
            Step::Respond(response) => StepView::Respond(response@),
            Step::Forward => StepView::Forward,
        }
    }
}

/// The step for a request, given the application's name and version, the
/// method, the UTF-8 bytes of the path and the capability header.
pub open spec fn step_of(
    provider: Provider,
    name: Seq<char>,
    version: Seq<char>,
    method: Method,
    path: Seq<u8>,
    capability: Option<Seq<char>>,
) -> StepView {
    match route_of(provider, method, path) {
        Route::NotFound => StepView::Respond(not_found_reply()),
        Route::Health => StepView::Respond(health_reply(name, version)),
        Route::Completions => match access_of(provider, capability) {
            AccessDecision::Denied => StepView::Respond(error_reply(GatewayError::AccessDenied)),
            AccessDecision::Granted => StepView::Forward,
        },
    }
}

/// Dispatches an inbound request: answers the health check, turns away what
/// no handler serves and what the access check denies, and lets the rest
/// pass to the upstream.
pub fn endpoints(
    provider: Provider,
    application: &Application,
    method: Method,
    path: &str,
    capability: Option<&str>,
) -> (step: Step)
    ensures
        step@ == step_of(
            provider,
            application.name@,
            application.version@,
            method,
            encode_utf8(path@),
            header_view(capability),
        ),
{
    match route(provider, method, path) {
        Route::NotFound => Step::Respond(not_found_response()),
        Route::Health => Step::Respond(health_response(application)),
        Route::Completions => match check_access(provider, capability) {
            AccessDecision::Denied => Step::Respond(error_response(GatewayError::AccessDenied)),
            AccessDecision::Granted => Step::Forward,
        },
    }
}

} // verus!
