use chat_gateway::dispatch::Method;
use chat_gateway::forwarder::{build_get_request, build_post_request, process_get_call};
use chat_gateway::response::{respond, GatewayError};
use chat_gateway::store::{SecretStore, StoreError};
use chat_gateway::transformer::UpstreamOutcome;

fn store_with(pairs: &[(&str, &str)]) -> SecretStore {
    let mut store = SecretStore::new();
    store.populate(pairs.iter().map(|(k, v)| (k.to_string(), v.to_string())).collect());
    store
}

fn pair(name: &str, value: &str) -> (String, String) {
    (name.to_string(), value.to_string())
}

#[test]
fn post_request_carries_token_content_type_and_body() {
    let store = store_with(&[("api_key", "sk-1"), ("base_url", "https://up.example/v1/chat")]);
    let body = b"{\"messages\":[]}".to_vec();
    let request = build_post_request(&store, body.clone()).unwrap();
    assert_eq!(request.method, Method::Post);
    assert_eq!(request.url, "https://up.example/v1/chat");
    assert_eq!(
        request.headers,
        vec![pair("Authorization", "Bearer sk-1"), pair("Content-Type", "application/json")]
    );
    assert_eq!(request.body, body);
    assert!(request.accept_invalid_certs);
}

#[test]
fn post_request_passes_any_bytes_unchanged() {
    let store = store_with(&[("api_key", "k"), ("base_url", "u")]);
    let body = vec![0u8, 255, 10, 13, 123];
    assert_eq!(build_post_request(&store, body.clone()).unwrap().body, body);
    assert_eq!(build_post_request(&store, Vec::new()).unwrap().body, Vec::<u8>::new());
}

#[test]
fn get_request_carries_the_token_and_no_body() {
    let store = store_with(&[("api_key", "sk-1"), ("base_url", "https://up.example/models")]);
    let request = build_get_request(&store).unwrap();
    assert_eq!(request.method, Method::Get);
    assert_eq!(request.url, "https://up.example/models");
    assert_eq!(request.headers, vec![pair("Authorization", "Bearer sk-1")]);
    assert!(request.body.is_empty());
    assert!(request.accept_invalid_certs);
}

#[test]
fn request_from_an_empty_store_is_uninitialized() {
    let store = SecretStore::new();
    assert!(matches!(
        build_post_request(&store, Vec::new()),
        Err(GatewayError::Store(StoreError::Uninitialized))
    ));
    assert!(matches!(
        build_get_request(&store),
        Err(GatewayError::Store(StoreError::Uninitialized))
    ));
}

#[test]
fn request_names_the_key_that_is_missing() {
    let without_url = store_with(&[("api_key", "k")]);
    match build_post_request(&without_url, Vec::new()) {
        Err(GatewayError::Store(StoreError::KeyNotFound(key))) => assert_eq!(key, "base_url"),
        other => panic!("unexpected {:?}", other),
    }
    let without_token = store_with(&[("base_url", "u")]);
    match build_post_request(&without_token, Vec::new()) {
        Err(GatewayError::Store(StoreError::KeyNotFound(key))) => assert_eq!(key, "api_key"),
        other => panic!("unexpected {:?}", other),
    }
    let without_both = store_with(&[]);
    match build_get_request(&without_both) {
        Err(GatewayError::Store(StoreError::KeyNotFound(key))) => assert_eq!(key, "base_url"),
        other => panic!("unexpected {:?}", other),
    }
}

#[test]
fn store_fault_gives_500() {
    let response = respond(Err(GatewayError::Store(StoreError::Uninitialized)));
    assert_eq!(response.status, 500);
    assert_eq!(response.body, b"[endpoints] error : None\n".to_vec());
    let response = respond(Err(GatewayError::Store(StoreError::LockFailed)));
    assert_eq!(response.status, 500);
    let response = respond(Err(GatewayError::Store(StoreError::KeyNotFound("api_key".to_string()))));
    assert_eq!(response.status, 500);
}

#[test]
fn get_call_returns_the_body_as_text() {
    let outcome = UpstreamOutcome::Replied { status: 200, body: "gr\u{fc}n ok".as_bytes().to_vec() };
    assert_eq!(process_get_call(outcome).unwrap(), "gr\u{fc}n ok");
    let outcome = UpstreamOutcome::Replied { status: 404, body: b"missing".to_vec() };
    assert_eq!(process_get_call(outcome).unwrap(), "missing");
}

#[test]
fn get_call_rejects_bytes_that_are_no_text() {
    let outcome = UpstreamOutcome::Replied { status: 200, body: vec![b'a', 0xff, b'b'] };
    assert!(matches!(process_get_call(outcome), Err(GatewayError::Malformed)));
}

#[test]
fn get_call_that_failed_is_a_transport_fault() {
    match process_get_call(UpstreamOutcome::Failed("dns failure".to_string())) {
        Err(GatewayError::Transport(cause)) => assert_eq!(cause, "dns failure"),
        other => panic!("unexpected {:?}", other),
    }
}
