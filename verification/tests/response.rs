use chat_gateway::response::{
    error_response, health_response, not_found_response, respond, Application, GatewayError,
};

#[test]
fn health_body_is_the_exact_object() {
    let app = Application { name: "unikernel-ai".to_string(), version: "0.3.0".to_string() };
    let response = health_response(&app);
    assert_eq!(response.status, 200);
    assert_eq!(
        String::from_utf8(response.body).unwrap(),
        "{\"status\":\"ok\",\"application\":\"unikernel-ai\",\"version\":\"0.3.0\"}"
    );
}

#[test]
fn health_body_is_json_with_three_members() {
    let app = Application { name: "n".to_string(), version: "v".to_string() };
    let parsed: serde_json::Value = serde_json::from_slice(&health_response(&app).body).unwrap();
    let object = parsed.as_object().unwrap();
    assert_eq!(object.len(), 3);
    assert_eq!(parsed["status"].as_str(), Some("ok"));
    assert_eq!(parsed["application"].as_str(), Some("n"));
    assert_eq!(parsed["version"].as_str(), Some("v"));
}

#[test]
fn not_found_is_404_with_the_fixed_body() {
    let response = not_found_response();
    assert_eq!(response.status, 404);
    assert_eq!(response.body, b"[endpoints] method/endpoint not implmented\n".to_vec());
}

#[test]
fn each_fault_has_its_status_and_body() {
    let denied = error_response(GatewayError::AccessDenied);
    assert_eq!((denied.status, denied.body), (403, b"[endpoints] : access forbidden\n".to_vec()));
    let transport = error_response(GatewayError::Transport("tls handshake".to_string()));
    assert_eq!(
        (transport.status, transport.body),
        (500, b"[endpoints] error : tls handshake\n".to_vec())
    );
    let upstream = error_response(GatewayError::UpstreamStatus(vec![1, 2, 3]));
    assert_eq!((upstream.status, upstream.body), (500, vec![1, 2, 3]));
    let malformed = error_response(GatewayError::Malformed);
    assert_eq!((malformed.status, malformed.body), (500, b"[endpoints] error : None\n".to_vec()));
}

#[test]
fn a_completion_is_answered_with_200_and_its_bytes() {
    let response = respond(Ok("\n\"gr\u{fc}n\"\n".to_string()));
    assert_eq!(response.status, 200);
    assert_eq!(response.body, "\n\"gr\u{fc}n\"\n".as_bytes().to_vec());
}
