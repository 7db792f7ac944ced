use truvis_app::editor::ids::{ClientId, InstanceId, MaterialId, MeshId, RequestId, SceneVersion, TextureId};
use truvis_app::editor::protocol::{EditorClientMessage, EditorQuery, EditorRequest, EDITOR_PROTOCOL_VERSION};
use truvis_app::editor::server::{
    busy_reply, handle_parsed_message, origin_is_allowed, ClientIdAllocator, ClientMessageOutcome, ClientRegistry,
    EditorBridgeConfig, EditorErrorCode, EditorNotificationTarget, EditorServer,
};

#[test]
fn ids_hold_their_text() {
    assert_eq!(RequestId::new("r1".to_string()).0, "r1");
    assert_eq!(InstanceId::new("i".to_string()).0, "i");
    assert_eq!(MeshId::new("m".to_string()).0, "m");
    assert_eq!(MaterialId::new("mat".to_string()).0, "mat");
    assert_eq!(TextureId::new("t".to_string()).0, "t");
    assert!(RequestId::new("a".to_string()) == RequestId::new("a".to_string()));
    assert!(RequestId::new("a".to_string()) != RequestId::new("b".to_string()));
}

#[test]
fn scene_version_is_decimal() {
    assert_eq!(SceneVersion::from_u64(0).0, "0");
    assert_eq!(SceneVersion::from_u64(42).0, "42");
    assert_eq!(SceneVersion::from_u64(u64::MAX).0, "18446744073709551615");
}

#[test]
fn scene_version_round_trip() {
    for value in [0u64, 7, 10, 999, 1234567890123, u64::MAX] {
        assert_eq!(SceneVersion::from_u64(value).parse(), Ok(value));
    }
}

#[test]
fn scene_version_parse_rules() {
    assert_eq!(SceneVersion("17".to_string()).parse(), Ok(17));
    assert_eq!(SceneVersion("+17".to_string()).parse(), Ok(17));
    assert_eq!(SceneVersion("0017".to_string()).parse(), Ok(17));
    assert!(SceneVersion("".to_string()).parse().is_err());
    assert!(SceneVersion("+".to_string()).parse().is_err());
    assert!(SceneVersion("-1".to_string()).parse().is_err());
    assert!(SceneVersion(" 1".to_string()).parse().is_err());
    assert!(SceneVersion("18446744073709551616".to_string()).parse().is_err());
}

fn message(version: u32) -> EditorClientMessage {
    EditorClientMessage {
        protocol_version: version,
        request_id: RequestId::new("req-7".to_string()),
        request: EditorRequest::Query(EditorQuery::GetSelection),
    }
}

#[test]
fn invalid_message_is_answered() {
    match handle_parsed_message(ClientId(3), Err("expected value".to_string())) {
        ClientMessageOutcome::Reply(reply) => {
            assert_eq!(reply.request_id.0, "invalid");
            assert_eq!(reply.code, EditorErrorCode::InvalidRequest);
            assert_eq!(reply.message, "invalid editor message: expected value");
        }
        ClientMessageOutcome::Forward(_) => panic!("invalid message forwarded"),
    }
}

#[test]
fn other_protocol_version_is_refused() {
    match handle_parsed_message(ClientId(3), Ok(message(2))) {
        ClientMessageOutcome::Reply(reply) => {
            assert_eq!(reply.request_id.0, "req-7");
            assert_eq!(reply.code, EditorErrorCode::UnsupportedProtocol);
            assert_eq!(reply.message, "expected editor protocol version 1");
        }
        ClientMessageOutcome::Forward(_) => panic!("wrong version forwarded"),
    }
}

#[test]
fn current_protocol_message_is_forwarded() {
    match handle_parsed_message(ClientId(9), Ok(message(EDITOR_PROTOCOL_VERSION))) {
        ClientMessageOutcome::Forward(envelope) => {
            assert_eq!(envelope.client_id, ClientId(9));
            assert_eq!(envelope.request_id.0, "req-7");
            assert!(matches!(envelope.request, EditorRequest::Query(EditorQuery::GetSelection)));
        }
        ClientMessageOutcome::Reply(_) => panic!("valid message refused"),
    }
    let busy = busy_reply(RequestId::new("x".to_string()));
    assert_eq!(busy.code, EditorErrorCode::Busy);
    assert_eq!(busy.message, "render request inbox is full");
    assert_eq!(busy.request_id.0, "x");
}

#[test]
fn origin_policy() {
    assert!(origin_is_allowed(None));
    assert!(!origin_is_allowed(Some(None)));
    assert!(origin_is_allowed(Some(Some("http://127.0.0.1:9473"))));
    assert!(origin_is_allowed(Some(Some("http://localhost:5173"))));
    assert!(origin_is_allowed(Some(Some("http://[::1]:80"))));
    assert!(!origin_is_allowed(Some(Some("http://localhost"))));
    assert!(!origin_is_allowed(Some(Some("https://localhost:5173"))));
    assert!(!origin_is_allowed(Some(Some("http://evil.example:80"))));
}

#[test]
fn client_ids_count_up_from_one() {
    let mut allocator = ClientIdAllocator::new();
    assert_eq!(allocator.allocate(), ClientId(1));
    assert_eq!(allocator.allocate(), ClientId(2));
}

#[test]
fn notification_recipients() {
    let mut clients = ClientRegistry::new();
    clients.connect(ClientId(1));
    clients.connect(ClientId(2));
    clients.connect(ClientId(1));
    assert_eq!(clients.recipients(EditorNotificationTarget::Broadcast), vec![ClientId(1), ClientId(2)]);
    assert_eq!(clients.recipients(EditorNotificationTarget::Client(ClientId(2))), vec![ClientId(2)]);
    clients.disconnect(ClientId(2));
    assert_eq!(clients.recipients(EditorNotificationTarget::Client(ClientId(2))), vec![]);
    assert_eq!(clients.recipients(EditorNotificationTarget::Broadcast), vec![ClientId(1)]);
}

#[test]
fn bridge_config_default_capacities() {
    let config = EditorBridgeConfig::default();
    assert_eq!(config.request_capacity, 256);
    assert_eq!(config.notification_capacity, 64);
}

#[test]
fn editor_server_refuses_non_loopback_first() {
    let r = EditorServer::check_start(false, "/srv/web", false);
    assert_eq!(r, Err("EditorServer only accepts loopback bind addresses".to_string()));
}

#[test]
fn editor_server_needs_index_html() {
    let r = EditorServer::check_start(true, "/srv/web", false);
    assert_eq!(r, Err("EditorServer web root does not contain index.html: /srv/web".to_string()));
    assert_eq!(EditorServer::check_start(true, "/srv/web", true), Ok(()));
}

#[test]
fn request_id_text_is_the_id() {
    assert_eq!(RequestId::new("r-1".to_string()).to_text(), "r-1");
    assert_eq!(RequestId::new("r-1".to_string()), RequestId("r-1".to_string()));
}
