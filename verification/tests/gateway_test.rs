use ed25519_dalek::{Signer, SigningKey};
use stock_monitoring_bot::gateway::{
    authenticate, delivered, find_header, json_reply, pick_header, rejection, route, Header,
    HttpReply, Routed,
};
use stock_monitoring_bot::models::DiscordInteraction;
use stock_monitoring_bot::signature::SignatureError;

fn header(name: &str, value: &str) -> Header {
    Header { name: name.to_string(), value: value.to_string() }
}

fn interaction_of_kind(kind: u8) -> DiscordInteraction {
    DiscordInteraction {
        interaction_type: kind,
        id: None,
        application_id: None,
        data: None,
        member: None,
        user: None,
    }
}

fn check_reply(reply: &HttpReply, status: u16, body: &str) {
    assert_eq!(reply.status_code, status);
    assert_eq!(reply.content_type, "application/json");
    assert_eq!(reply.body, body);
}

fn gateway_key() -> SigningKey {
    SigningKey::from_bytes(&[9u8; 32])
}

fn signed_headers(timestamp: &str, body: &str) -> Vec<Header> {
    let signature = gateway_key().sign(format!("{}{}", timestamp, body).as_bytes());
    vec![
        header("Content-Type", "application/json"),
        header("X-Signature-Ed25519", &hex::encode(signature.to_bytes())),
        header("X-Signature-Timestamp", timestamp),
    ]
}

fn key_hex() -> String {
    hex::encode(gateway_key().verifying_key().to_bytes())
}

#[test]
fn header_names_ignore_case() {
    let headers = vec![header("X-Signature-Ed25519", "abc"), header("x-signature-TIMESTAMP", "42")];
    assert_eq!(find_header(&headers, "x-signature-ed25519"), "abc");
    assert_eq!(find_header(&headers, "x-signature-timestamp"), "42");
    assert_eq!(find_header(&headers, "x-missing"), "");
    assert_eq!(find_header(&vec![], "x-signature-ed25519"), "");
}

#[test]
fn last_header_of_a_name_counts() {
    let headers = vec![header("a", "1"), header("A", "2"), header("b", "3")];
    assert_eq!(find_header(&headers, "a"), "2");
}

#[test]
fn header_pick() {
    assert_eq!(pick_header("old".to_string(), "a", "new", "a"), "new");
    assert_eq!(pick_header("old".to_string(), "b", "new", "a"), "old");
}

#[test]
fn rejections() {
    assert!(rejection(Ok(true)).is_none());
    check_reply(&rejection(Ok(false)).unwrap(), 401, "{\"error\":\"Invalid signature\"}");
    check_reply(
        &rejection(Err(SignatureError::InvalidSignatureHex)).unwrap(),
        401,
        "{\"error\":\"Signature verification failed\"}",
    );
    check_reply(
        &rejection(Err(SignatureError::InvalidPublicKey)).unwrap(),
        401,
        "{\"error\":\"Signature verification failed\"}",
    );
}

#[test]
fn request_with_valid_signature_is_admitted() {
    let body = "{\"type\":1}";
    let headers = signed_headers("1700000000", body);
    assert!(authenticate(&headers, body, &key_hex()).is_none());
}

#[test]
fn request_with_other_body_is_rejected() {
    let headers = signed_headers("1700000000", "{\"type\":1}");
    let reply = authenticate(&headers, "{\"type\":2}", &key_hex()).unwrap();
    check_reply(&reply, 401, "{\"error\":\"Invalid signature\"}");
}

#[test]
fn request_without_signature_headers_is_rejected() {
    let reply = authenticate(&vec![], "{\"type\":1}", &key_hex()).unwrap();
    check_reply(&reply, 401, "{\"error\":\"Invalid signature\"}");
}

#[test]
fn request_with_garbled_signature_fails_verification() {
    let headers = vec![
        header("x-signature-ed25519", &"z".repeat(128)),
        header("x-signature-timestamp", "1"),
    ];
    let reply = authenticate(&headers, "{}", &key_hex()).unwrap();
    check_reply(&reply, 401, "{\"error\":\"Signature verification failed\"}");
}

#[test]
fn handshake_yields_type_one() {
    let body = "{\"type\":1}";
    let headers = signed_headers("1700000000", body);
    assert!(authenticate(&headers, body, &key_hex()).is_none());
    match route(Some(interaction_of_kind(1))) {
        Routed::Respond(reply) => check_reply(&reply, 200, "{\"type\":1}"),
        other => panic!("unexpected: {:?}", other),
    }
}

#[test]
fn unparsed_body_is_a_bad_request() {
    match route(None) {
        Routed::Respond(reply) => {
            check_reply(&reply, 400, "{\"error\":\"Invalid interaction data\"}")
        }
        other => panic!("unexpected: {:?}", other),
    }
}

#[test]
fn other_interactions_are_dispatched() {
    match route(Some(interaction_of_kind(2))) {
        Routed::Dispatch(interaction) => assert_eq!(interaction.interaction_type, 2),
        other => panic!("unexpected: {:?}", other),
    }
    assert!(matches!(route(Some(interaction_of_kind(3))), Routed::Dispatch(_)));
}

#[test]
fn dispatched_answers_are_delivered_with_success() {
    check_reply(&delivered("{\"type\":4}".to_string()), 200, "{\"type\":4}");
    check_reply(&json_reply(418, "x".to_string()), 418, "x");
}
