use hc_zwave::json::{JsonNumber, JsonValue};
use hc_zwave::session::{
    handshake_step, loop_step, FrameKind, HandshakeAction, HandshakePhase, LoopAction, LoopEvent, SessionError,
};
use hc_zwave::types::{ResultMsg, ServerMsg, VersionMsg};

fn obj(members: Vec<(&str, JsonValue)>) -> JsonValue {
    JsonValue::Object(members.into_iter().map(|(k, v)| (k.to_string(), v)).collect())
}

fn s(x: &str) -> JsonValue {
    JsonValue::String(x.to_string())
}

fn version(min: u32, max: u32) -> ServerMsg {
    ServerMsg::Version(VersionMsg {
        driver_version: "12.0.0".to_string(),
        server_version: "1.33.0".to_string(),
        home_id: Some(1),
        min_schema_version: min,
        max_schema_version: max,
    })
}

fn result(id: &str, success: bool, result: Option<JsonValue>) -> ServerMsg {
    ServerMsg::Result(ResultMsg { message_id: id.to_string(), success, result, error_code: None })
}

#[test]
fn handshake_runs_in_order() {
    let (p, a) = handshake_step(HandshakePhase::AwaitVersion, 35, FrameKind::Ping, None);
    assert_eq!(p, HandshakePhase::AwaitVersion);
    assert!(matches!(a, HandshakeAction::Wait));
    // A result before the version announcement is passed over.
    let early = result("hc-zwave-init", true, None);
    let (p, a) = handshake_step(p, 35, FrameKind::Text, Some(&early));
    assert_eq!(p, HandshakePhase::AwaitVersion);
    assert!(matches!(a, HandshakeAction::Wait));

    let v = version(0, 30);
    let (p, a) = handshake_step(p, 35, FrameKind::Text, Some(&v));
    assert_eq!(p, HandshakePhase::AwaitSchemaResult(30));
    match a {
        HandshakeAction::Send(doc) => assert_eq!(
            doc,
            obj(vec![
                ("messageId", s("hc-zwave-init")),
                ("command", s("set_api_schema")),
                ("schemaVersion", JsonValue::Number(JsonNumber::PosInt(30))),
            ])
        ),
        _ => panic!("expected set_api_schema"),
    }

    let other = result("someone-else", false, None);
    let (p, a) = handshake_step(p, 35, FrameKind::Text, Some(&other));
    assert_eq!(p, HandshakePhase::AwaitSchemaResult(30));
    assert!(matches!(a, HandshakeAction::Wait));

    let ok = result("hc-zwave-init", true, None);
    let (p, a) = handshake_step(p, 35, FrameKind::Text, Some(&ok));
    assert_eq!(p, HandshakePhase::AwaitListenResult);
    match a {
        HandshakeAction::Send(doc) => assert_eq!(
            doc,
            obj(vec![("messageId", s("hc-zwave-listen")), ("command", s("start_listening"))])
        ),
        _ => panic!("expected start_listening"),
    }

    let node = obj(vec![("nodeId", JsonValue::Number(JsonNumber::PosInt(2)))]);
    let state = obj(vec![("state", obj(vec![("nodes", JsonValue::Array(vec![node.copy()]))]))]);
    let listen = result("hc-zwave-listen", true, Some(state));
    let (p, a) = handshake_step(p, 35, FrameKind::Text, Some(&listen));
    assert_eq!(p, HandshakePhase::Done);
    match a {
        HandshakeAction::Finish(nodes) => assert_eq!(nodes, vec![node]),
        _ => panic!("expected the nodes"),
    }
}

#[test]
fn handshake_failures() {
    let (_, a) = handshake_step(HandshakePhase::AwaitVersion, 35, FrameKind::Text, None);
    assert!(matches!(a, HandshakeAction::Fail(SessionError::Unparsable)));
    let (_, a) = handshake_step(HandshakePhase::AwaitVersion, 35, FrameKind::End, None);
    assert!(matches!(a, HandshakeAction::Fail(SessionError::StreamEnded)));
    let (_, a) = handshake_step(HandshakePhase::AwaitListenResult, 35, FrameKind::Error, None);
    assert!(matches!(a, HandshakeAction::Fail(SessionError::ReadFailed)));
    // A close frame does not end the handshake by itself.
    let (_, a) = handshake_step(HandshakePhase::AwaitListenResult, 35, FrameKind::Close, None);
    assert!(matches!(a, HandshakeAction::Wait));
    let failed = result("hc-zwave-init", false, None);
    let (p, a) = handshake_step(HandshakePhase::AwaitSchemaResult(35), 35, FrameKind::Text, Some(&failed));
    assert_eq!(p, HandshakePhase::AwaitSchemaResult(35));
    assert!(matches!(a, HandshakeAction::Fail(SessionError::CommandFailed)));
    // A listen result without the state array gives no nodes.
    let bare = result("hc-zwave-listen", true, None);
    let (_, a) = handshake_step(HandshakePhase::AwaitListenResult, 35, FrameKind::Text, Some(&bare));
    assert!(matches!(a, HandshakeAction::Finish(n) if n.is_empty()));
}

#[test]
fn schema_is_clamped_to_server_range() {
    let v = version(36, 40);
    let (p, _) = handshake_step(HandshakePhase::AwaitVersion, 35, FrameKind::Text, Some(&v));
    assert_eq!(p, HandshakePhase::AwaitSchemaResult(36));
    let v = version(0, 40);
    let (p, _) = handshake_step(HandshakePhase::AwaitVersion, 35, FrameKind::Text, Some(&v));
    assert_eq!(p, HandshakePhase::AwaitSchemaResult(35));
}

#[test]
fn event_loop_decisions() {
    assert_eq!(loop_step(LoopEvent::Frame(FrameKind::Text)), LoopAction::HandleText);
    assert_eq!(loop_step(LoopEvent::Frame(FrameKind::Ping)), LoopAction::Ignore);
    assert_eq!(loop_step(LoopEvent::Frame(FrameKind::Other)), LoopAction::Ignore);
    assert_eq!(loop_step(LoopEvent::Frame(FrameKind::Close)), LoopAction::Fail(SessionError::ClosedByServer));
    assert_eq!(loop_step(LoopEvent::Frame(FrameKind::Error)), LoopAction::Fail(SessionError::ReadFailed));
    assert_eq!(loop_step(LoopEvent::Frame(FrameKind::End)), LoopAction::Fail(SessionError::StreamEnded));
    assert_eq!(loop_step(LoopEvent::Command), LoopAction::SendCommand);
    assert_eq!(loop_step(LoopEvent::CommandsClosed), LoopAction::Stop);
}
