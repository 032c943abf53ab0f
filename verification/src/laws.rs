//! What holds of the gateway on every request.

use crate::dispatch::{
    accepted_capability, completions_marker, health_marker, step_of, Method, Provider, StepView,
};
use crate::forwarder::{credentials_fault, token_key, url_key};
use crate::json::{field, parsed, Json};
use crate::response::{
    denial_text, error_text, health_reply, health_text, no_cause, not_found_reply,
    not_found_text, text_reply, Reply,
};
use crate::store::{lookup, pairs_map, populated, Lookup};
use crate::text::contains_seq;
use crate::transformer::{
    completion_of, completion_reply, envelope_text, quoted, reads_as_completion, reply_text,
    UpstreamOutcome,
};
use vstd::prelude::*;
use vstd::utf8::encode_utf8;

verus! {

/// A request asks for the health check: a `GET` whose path holds the health
/// marker, or, with the provider that offers it to `POST` too, a `POST`
/// whose path holds the health marker and not that of the completion
/// pipeline.
pub open spec fn asks_for_health(provider: Provider, method: Method, path: Seq<u8>) -> bool {
    &&& contains_seq(path, health_marker())
    &&& (method == Method::Get || (method == Method::Post && provider
        == Provider::GrokCompatible && !contains_seq(path, completions_marker())))
}

/// A request asks for a completion: a `POST` whose path holds the marker of
/// the completion pipeline.
pub open spec fn asks_for_completion(method: Method, path: Seq<u8>) -> bool {
    method == Method::Post && contains_seq(path, completions_marker())
}

/// Every request for the health check is answered at once, with status 200
/// and the JSON object that holds the application's name and version,
/// whatever method it came by and whatever capability it carries.
pub proof fn health_is_always_ok(
    provider: Provider,
    name: Seq<char>,
    version: Seq<char>,
    method: Method,
    path: Seq<u8>,
    capability: Option<Seq<char>>,
)
    requires
        asks_for_health(provider, method, path),
    ensures
        step_of(provider, name, version, method, path, capability) == StepView::Respond(
            health_reply(name, version),
        ),
        health_reply(name, version).status == 200,
        health_reply(name, version).body == encode_utf8(health_text(name, version)),
{
}

/// With the provider that checks access, a request for a completion that
/// carries no capability, or another one than the accepted value, is
/// answered at once with status 403: it is never forwarded.
pub proof fn denied_request_is_never_forwarded(
    name: Seq<char>,
    version: Seq<char>,
    method: Method,
    path: Seq<u8>,
    capability: Option<Seq<char>>,
)
    requires
        asks_for_completion(method, path),
        capability != Some(accepted_capability()),
    ensures
        step_of(Provider::GrokCompatible, name, version, method, path, capability)
            == StepView::Respond(text_reply(403, denial_text())),
        step_of(Provider::GrokCompatible, name, version, method, path, capability)
            != StepView::Forward,
{
}

/// A request is forwarded only where it asks for a completion and, with the
/// provider that checks access, carries the accepted capability.
pub proof fn forwarded_request_was_granted(
    provider: Provider,
    name: Seq<char>,
    version: Seq<char>,
    method: Method,
    path: Seq<u8>,
    capability: Option<Seq<char>>,
)
    ensures
        step_of(provider, name, version, method, path, capability) == StepView::Forward <==> (
        asks_for_completion(method, path) && (provider == Provider::OpenAiCompatible || capability
            == Some(accepted_capability()))),
{
}

/// A request that asks neither for a completion nor for the health check is
/// answered at once with status 404 and the fixed body: it is never
/// forwarded.
pub proof fn unrecognized_request_is_not_found(
    provider: Provider,
    name: Seq<char>,
    version: Seq<char>,
    method: Method,
    path: Seq<u8>,
    capability: Option<Seq<char>>,
)
    requires
        !asks_for_completion(method, path),
        !asks_for_health(provider, method, path),
    ensures
        step_of(provider, name, version, method, path, capability) == StepView::Respond(
            not_found_reply(),
        ),
        not_found_reply() == text_reply(404, not_found_text()),
        step_of(provider, name, version, method, path, capability) != StepView::Forward,
{
}

/// An answer that is read as a completion and holds one is answered with
/// status 200 and the quoted message text of the first choice between two
/// line feeds: the text under `content` of the member `message` of the
/// first element under `choices`.
pub proof fn completion_returns_the_first_content(
    provider: Provider,
    status: u16,
    body: Vec<u8>,
    json: Json,
    items: Seq<Json>,
    message: Json,
    text: Seq<char>,
)
    requires
        reads_as_completion(provider, status),
        parsed(body@) == Some(json),
        completion_of(provider, json) is Some,
        field(json, "choices"@) == Some(Json::Array(items)),
        items.len() > 0,
        field(items[0], "message"@) == Some(message),
        field(message, "content"@) == Some(Json::Text(text)),
    ensures
        reply_text(provider, body@) == Some(envelope_text(quoted(text))),
        completion_reply(provider, UpstreamOutcome::Replied { status, body }) == text_reply(
            200,
            envelope_text(quoted(text)),
        ),
{
}

/// An answer that is read as a completion and holds none is reported with
/// status 500 and one fixed body, whatever bytes the upstream sent.
pub proof fn malformed_reply_is_a_fixed_error(provider: Provider, status: u16, body: Vec<u8>)
    requires
        reads_as_completion(provider, status),
        reply_text(provider, body@) is None,
    ensures
        completion_reply(provider, UpstreamOutcome::Replied { status, body }) == text_reply(
            500,
            error_text(no_cause()),
        ),
{
}

/// The report of an answer that holds no completion does not hold the
/// upstream's bytes, unless they are a part of the fixed body itself.
pub proof fn malformed_reply_hides_upstream_bytes(provider: Provider, status: u16, body: Vec<u8>)
    requires
        reads_as_completion(provider, status),
        reply_text(provider, body@) is None,
        !contains_seq(encode_utf8(error_text(no_cause())), body@),
    ensures
        completion_reply(provider, UpstreamOutcome::Replied { status, body }).status == 500,
        !contains_seq(
            completion_reply(provider, UpstreamOutcome::Replied { status, body }).body,
            body@,
        ),
{
}

/// With the provider that reads only status 200 as a completion, an answer
/// with any other status is reported with status 500 and the upstream's
/// bytes as the body, unchanged.
pub proof fn upstream_fault_carries_its_body(status: u16, body: Vec<u8>)
    requires
        status != 200,
    ensures
        completion_reply(Provider::GrokCompatible, UpstreamOutcome::Replied { status, body })
            == (Reply { status: 500, body: body@ }),
{
}

/// A store that was never populated answers every lookup with
/// `Uninitialized`; a populated store answers none so, whatever it holds.
pub proof fn only_an_empty_store_is_uninitialized(
    store: Option<Map<Seq<char>, Seq<char>>>,
    key: Seq<char>,
)
    ensures
        lookup(store, key) is Uninitialized <==> store is None,
{
}

/// Whatever a store is asked to take, and however often, it is populated
/// afterwards and no lookup reports it uninitialized; a store that was
/// populated before holds what it held.
pub proof fn populated_store_stays_as_it_is(
    store: Option<Map<Seq<char>, Seq<char>>>,
    pairs: Seq<(String, String)>,
    key: Seq<char>,
)
    ensures
        populated(store, pairs) is Some,
        !(lookup(populated(store, pairs), key) is Uninitialized),
        store is Some ==> populated(store, pairs) == store,
        store is Some ==> lookup(populated(store, pairs), key) == lookup(store, key),
{
}

/// A key that the pairs a store was populated with hold is found, with the
/// value of the last pair that holds it.
pub proof fn populated_key_is_found(pairs: Seq<(String, String)>, i: int)
    requires
        0 <= i < pairs.len(),
        forall|j: int| i < j < pairs.len() ==> pairs[j].0@ != pairs[i].0@,
    ensures
        lookup(Some(pairs_map(pairs)), pairs[i].0@) == Lookup::Found(pairs[i].1@),
    decreases pairs.len(),
{
    if i < pairs.len() - 1 {
        populated_key_is_found(pairs.drop_last(), i);
    }
}

/// A store that is populated with the bearer token under `api_key` and the
/// upstream's address under `base_url` serves the forwarder: it holds both,
/// each with the value it was given.
pub proof fn configured_store_serves_the_forwarder(
    pairs: Seq<(String, String)>,
    url: Seq<char>,
    token: Seq<char>,
)
    requires
        pairs.len() == 2,
        pairs[0].0@ == "api_key"@,
        pairs[0].1@ == token,
        pairs[1].0@ == "base_url"@,
        pairs[1].1@ == url,
    ensures
        credentials_fault(Some(pairs_map(pairs))) is None,
        pairs_map(pairs)[url_key()] == url,
        pairs_map(pairs)[token_key()] == token,
{
    reveal_strlit("api_key");
    reveal_strlit("base_url");
    assert("api_key"@ != "base_url"@) by {
        assert("api_key"@[0] != "base_url"@[0]);
    }
    populated_key_is_found(pairs, 0);
    populated_key_is_found(pairs, 1);
}

} // verus!
