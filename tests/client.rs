use presence_rpc::client::{
    socket_directory, ConnectError, ConnectOutcome, DiscordRPCClient, RetryDecision, RetryState,
    NONCE_LEN, SOCKET_NAME,
};
use std::time::Duration;

use presence_rpc::codec::decode_message;
use presence_rpc::error::RpcError;
use presence_rpc::json::JsonValue;
use presence_rpc::presence::{Activity, User};
use presence_rpc::protocol::handshake_user;

fn from_serde(v: &serde_json::Value) -> JsonValue {
    match v {
        serde_json::Value::Null => JsonValue::Null,
        serde_json::Value::Bool(b) => JsonValue::Bool(*b),
        serde_json::Value::Number(n) => match n.as_u64() {
            Some(u) => JsonValue::Number(u),
            None => JsonValue::OtherNumber(n.to_string()),
        },
        serde_json::Value::String(s) => JsonValue::Text(s.clone()),
        serde_json::Value::Array(items) => JsonValue::Array(items.iter().map(from_serde).collect()),
        serde_json::Value::Object(m) => JsonValue::Object(
            m.iter().map(|(k, v)| (k.clone(), from_serde(v))).collect(),
        ),
    }
}

fn parse(text: &str) -> JsonValue {
    from_serde(&serde_json::from_str::<serde_json::Value>(text).unwrap())
}

fn frame(payload: &str) -> Vec<u8> {
    let mut bytes = vec![0, 0, 0, 0];
    bytes.extend_from_slice(&(payload.len() as u32).to_le_bytes());
    bytes.extend_from_slice(payload.as_bytes());
    bytes
}

const RESPONSE: &str =
    r#"{"data":{"user":{"id":"1","username":"a","discriminator":"0","avatar":"","flags":0}}}"#;

#[test]
fn handshake_response_gives_user_and_ready_state() {
    let bytes = frame(RESPONSE);
    let text = decode_message(&bytes).unwrap();
    let response = parse(&text);
    let mut client: DiscordRPCClient<u8> = DiscordRPCClient::new();
    client.attach(0);
    let user = client.finish_handshake(&response).unwrap();
    assert_eq!(
        user,
        User {
            id: "1".to_string(),
            username: "a".to_string(),
            discriminator: "0".to_string(),
            avatar: String::new(),
            flags: 0,
        }
    );
    assert!(client.handshake_done());
    assert!(client.activity_request(1, &Some(Activity::default())).is_ok());
}

#[test]
fn handshake_response_without_user_is_protocol_error() {
    let mut client: DiscordRPCClient<u8> = DiscordRPCClient::new();
    client.attach(0);
    let response = parse(r#"{"data":{"code":4000}}"#);
    assert_eq!(client.finish_handshake(&response), Err(RpcError::Protocol));
    assert!(!client.handshake_done());
    assert!(client.is_connected());
}

#[test]
fn user_with_wrong_field_types_is_refused() {
    let bad_flags =
        parse(r#"{"data":{"user":{"id":"1","username":"a","discriminator":"0","avatar":"","flags":70000}}}"#);
    assert_eq!(handshake_user(&bad_flags), Err(RpcError::Protocol));
    let numeric_id =
        parse(r#"{"data":{"user":{"id":1,"username":"a","discriminator":"0","avatar":"","flags":0}}}"#);
    assert_eq!(handshake_user(&numeric_id), Err(RpcError::Protocol));
    let extra = parse(
        r#"{"data":{"user":{"id":"9","username":"b","discriminator":"7","avatar":"h","flags":64,"bot":false}}}"#,
    );
    let user = handshake_user(&extra).unwrap();
    assert_eq!(user.id, "9");
    assert_eq!(user.flags, 64);
}

#[test]
fn handshake_needs_a_socket() {
    let mut client: DiscordRPCClient<u8> = DiscordRPCClient::new();
    assert_eq!(
        client.handshake_request("1").unwrap_err(),
        RpcError::NotConnected
    );
    assert_eq!(
        client.finish_handshake(&parse(RESPONSE)),
        Err(RpcError::NotConnected)
    );
    assert!(!client.handshake_done());
}

#[test]
fn handshake_request_carries_fresh_nonce() {
    let mut client: DiscordRPCClient<u8> = DiscordRPCClient::new();
    client.attach(0);
    let nonce_of = |v: &JsonValue| match v.get("nonce") {
        Some(JsonValue::Text(t)) => t.clone(),
        _ => panic!("no nonce"),
    };
    let first = client.handshake_request("abc").unwrap();
    let second = client.handshake_request("abc").unwrap();
    assert_eq!(nonce_of(&first).chars().count(), NONCE_LEN);
    assert_ne!(nonce_of(&first), nonce_of(&second));
    assert!(matches!(first.get("client_id"), Some(JsonValue::Text(t)) if t == "abc"));
    assert!(matches!(first.get("v"), Some(JsonValue::Number(1))));
}

#[test]
fn update_before_handshake_is_refused() {
    let activity = Some(Activity::default());
    let mut client: DiscordRPCClient<u8> = DiscordRPCClient::new();
    assert_eq!(
        client.activity_request(1, &activity).unwrap_err(),
        RpcError::HandshakeIncomplete
    );
    client.attach(0);
    assert_eq!(
        client.activity_request(1, &activity).unwrap_err(),
        RpcError::HandshakeIncomplete
    );
    let _ = client.finish_handshake(&parse("{}"));
    assert_eq!(
        client.activity_request(1, &activity).unwrap_err(),
        RpcError::HandshakeIncomplete
    );
    client.finish_handshake(&parse(RESPONSE)).unwrap();
    client.disconnect();
    assert_eq!(
        client.activity_request(1, &activity).unwrap_err(),
        RpcError::HandshakeIncomplete
    );
    client.attach(1);
    assert_eq!(
        client.activity_request(1, &None).unwrap_err(),
        RpcError::HandshakeIncomplete
    );
}

#[test]
fn update_after_handshake_names_the_process() {
    let mut client: DiscordRPCClient<u8> = DiscordRPCClient::new();
    client.attach(0);
    client.finish_handshake(&parse(RESPONSE)).unwrap();
    let request = client.activity_request(4321, &None).unwrap();
    let args = request.get("args").unwrap();
    assert!(matches!(args.get("pid"), Some(JsonValue::Number(4321))));
    assert!(matches!(args.get("activity"), Some(JsonValue::Null)));
    assert!(matches!(request.get("cmd"), Some(JsonValue::Text(t)) if t == "SET_ACTIVITY"));
}

#[test]
fn socket_mut_lends_the_socket() {
    let mut client: DiscordRPCClient<u8> = DiscordRPCClient::new();
    assert!(client.socket_mut().is_none());
    client.attach(5);
    *client.socket_mut().unwrap() += 1;
    assert_eq!(client.socket_mut().copied(), Some(6));
}

#[test]
fn retry_gives_up_after_limit() {
    let mut state = RetryState::new(Some(3), Duration::from_millis(5));
    assert_eq!(state.on_failure(ConnectError::Refused), RetryDecision::Wait);
    assert_eq!(state.on_failure(ConnectError::Refused), RetryDecision::Wait);
    let last = state.on_failure(ConnectError::Refused);
    assert_eq!(last, RetryDecision::Exhausted);
    assert_eq!(last.result(), Some(Ok(ConnectOutcome::Exhausted)));
    assert_eq!(state.interval(), Duration::from_millis(5));
}

#[test]
fn single_attempt_on_missing_socket() {
    let mut state = RetryState::new(Some(1), Duration::ZERO);
    let mut attempts = 0;
    let outcome = loop {
        attempts += 1;
        let decision = state.on_failure(ConnectError::NotFound);
        if let Some(result) = decision.result() {
            break result;
        }
    };
    assert_eq!(outcome, Ok(ConnectOutcome::Exhausted));
    assert_eq!(attempts, 1);
}

#[test]
fn other_errors_are_fatal() {
    let mut state = RetryState::new(None, Duration::from_secs(5));
    assert_eq!(state.on_failure(ConnectError::Refused), RetryDecision::Wait);
    let d = state.on_failure(ConnectError::Other);
    assert_eq!(d, RetryDecision::Fatal);
    assert_eq!(d.result(), Some(Err(RpcError::FatalConnection)));
    assert_eq!(RetryDecision::Wait.result(), None);
}

#[test]
fn no_limit_keeps_waiting() {
    let mut state = RetryState::new(None, Duration::from_secs(5));
    for _ in 0..1000 {
        assert_eq!(state.on_failure(ConnectError::NotFound), RetryDecision::Wait);
    }
}

#[test]
fn socket_directory_order() {
    let s = |x: &str| Some(x.to_string());
    assert_eq!(socket_directory(s("/run/user/1"), s("/t"), s("/tmpdir")), "/run/user/1");
    assert_eq!(socket_directory(None, s("/t"), s("/tmpdir")), "/t");
    assert_eq!(socket_directory(None, None, s("/tmpdir")), "/tmpdir");
    assert_eq!(socket_directory(None, None, None), "/tmp");
    assert_eq!(SOCKET_NAME, "discord-ipc-0");
}

#[test]
fn connect_failures_map_to_errors() {
    assert_eq!(ConnectError::Refused.error(), RpcError::TransientConnection);
    assert_eq!(ConnectError::NotFound.error(), RpcError::TransientConnection);
    assert_eq!(ConnectError::Other.error(), RpcError::FatalConnection);
}
