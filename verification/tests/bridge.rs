use hc_zwave::bridge::{
    build_state, command_topic_node, handle_event, handle_mqtt_cmd, initial_backoff_secs,
    listening_nodes, mqtt_settings, negotiate_schema, next_backoff_secs, node_device_id,
    publish_node, result_decision, set_api_schema_message, set_value_message,
    set_value_message_id, start_listening_message, Payload, ResultDecision, SetValueCmd,
};
use hc_zwave::config::HomecoreConfig;
use hc_zwave::json::{JsonNumber, JsonValue};
use hc_zwave::translator::Translator;
use hc_zwave::types::{
    EventWrapper, NodeState, NodeValue, RawEvent, ResultMsg, ServerMsg, ValueUpdatedArgs,
    VersionMsg,
};

fn num(n: u64) -> JsonValue {
    JsonValue::Number(JsonNumber::PosInt(n))
}

fn string(s: &str) -> JsonValue {
    JsonValue::String(s.to_string())
}

fn object(members: Vec<(&str, JsonValue)>) -> JsonValue {
    JsonValue::Object(members.into_iter().map(|(k, v)| (k.to_string(), v)).collect())
}

fn member<'a>(v: &'a JsonValue, key: &str) -> Option<&'a JsonValue> {
    match v {
        JsonValue::Object(ms) => ms.iter().find(|(k, _)| k == key).map(|(_, v)| v),
        _ => None,
    }
}

fn event(name: &str, node_id: Option<u32>) -> RawEvent {
    RawEvent {
        source: "node".to_string(),
        event: name.to_string(),
        node_id,
        args: None,
        node_state: None,
        name: None,
        location: None,
    }
}

fn value(cc: u32, property: &str, v: Option<JsonValue>) -> NodeValue {
    NodeValue { command_class: cc, endpoint: 0, property: property.to_string(), property_key: None, value: v }
}

fn sample_node() -> NodeState {
    NodeState {
        node_id: 7,
        name: Some("Front door".to_string()),
        location: Some(String::new()),
        status: Some(4),
        values: vec![
            value(98, "currentMode", Some(num(255))),
            value(37, "currentValue", Some(JsonValue::Bool(true))),
            value(37, "currentValue", Some(JsonValue::Null)),
            value(999, "unknown", Some(num(1))),
            value(38, "currentValue", None),
        ],
    }
}

#[test]
fn device_ids() {
    assert_eq!(node_device_id(0), "zwave_0");
    assert_eq!(node_device_id(42), "zwave_42");
    assert_eq!(node_device_id(4294967295), "zwave_4294967295");
}

#[test]
fn command_topics() {
    assert_eq!(command_topic_node("homecore/devices/zwave_12/cmd"), Some(12));
    assert_eq!(command_topic_node("x/y/zwave_+5/cmd"), Some(5));
    assert_eq!(command_topic_node("homecore/devices/zwave_12/state"), None);
    assert_eq!(command_topic_node("homecore/devices/hue_1/cmd"), None);
    assert_eq!(command_topic_node("homecore/devices/zwave_1/cmd/x"), None);
    assert_eq!(command_topic_node("homecore/devices/zwave_/cmd"), None);
    assert_eq!(command_topic_node("homecore/devices/zwave_4294967296/cmd"), None);
    assert_eq!(command_topic_node("homecore/zwave_3/cmd"), None);
}

#[test]
fn device_topic_round_trip() {
    for n in [0u32, 1, 9, 10, 99, 65535, 4294967295] {
        let topic = format!("homecore/devices/{}/cmd", node_device_id(n));
        assert_eq!(command_topic_node(&topic), Some(n));
    }
}

#[test]
fn mqtt_commands_follow_write_targets() {
    let t = Translator::new();
    let payload = object(vec![
        ("brightness", num(50)),
        ("locked", JsonValue::Bool(true)),
        ("motion", JsonValue::Bool(true)),
        ("mode", string("cool")),
    ]);
    let cmds = handle_mqtt_cmd("homecore/devices/zwave_7/cmd", Some(&payload), &t);
    assert_eq!(cmds.len(), 3);
    assert_eq!((cmds[0].node_id, cmds[0].command_class, cmds[0].endpoint), (7, 38, 0));
    assert_eq!(cmds[0].property, "targetValue");
    assert_eq!(cmds[0].value, num(50));
    assert_eq!((cmds[1].command_class, cmds[1].property.as_str()), (98, "targetMode"));
    assert_eq!(cmds[1].value, num(255));
    assert_eq!((cmds[2].command_class, cmds[2].property.as_str()), (64, "mode"));
    assert_eq!(cmds[2].value, num(2));
}

#[test]
fn mqtt_commands_ignored() {
    let t = Translator::new();
    let payload = object(vec![("on", JsonValue::Bool(true))]);
    assert!(handle_mqtt_cmd("homecore/devices/hue_7/cmd", Some(&payload), &t).is_empty());
    assert!(handle_mqtt_cmd("homecore/devices/zwave_7/cmd", None, &t).is_empty());
    assert!(handle_mqtt_cmd("homecore/devices/zwave_7/cmd", Some(&num(1)), &t).is_empty());
    let cmds = handle_mqtt_cmd("homecore/devices/zwave_7/cmd", Some(&payload), &t);
    assert_eq!(cmds.len(), 1);
    assert_eq!(cmds[0].value, JsonValue::Bool(true));
}

#[test]
fn node_state_document() {
    let t = Translator::new();
    let state = build_state(&sample_node(), &t);
    assert_eq!(member(&state, "name"), Some(&string("Front door")));
    assert_eq!(member(&state, "location"), None);
    assert_eq!(member(&state, "locked"), Some(&JsonValue::Bool(true)));
    assert_eq!(member(&state, "on"), Some(&JsonValue::Bool(true)));
    assert_eq!(member(&state, "brightness"), None);
    match &state {
        JsonValue::Object(ms) => assert_eq!(ms.len(), 3),
        _ => panic!("state is not an object"),
    }
}

#[test]
fn node_publications() {
    let t = Translator::new();
    let pubs = publish_node("plugin.zwave", &sample_node(), &t);
    assert_eq!(pubs.len(), 3);
    assert_eq!(pubs[0].topic, "homecore/plugins/plugin.zwave/register");
    assert!(!pubs[0].retain);
    match &pubs[0].payload {
        Payload::Json(doc) => {
            assert_eq!(member(doc, "device_id"), Some(&string("zwave_7")));
            assert_eq!(member(doc, "plugin_id"), Some(&string("plugin.zwave")));
            assert_eq!(member(doc, "name"), Some(&string("Front door")));
            assert_eq!(member(doc, "device_type"), Some(&string("zwave")));
        }
        _ => panic!("register payload is not JSON"),
    }
    assert_eq!(pubs[1].topic, "homecore/devices/zwave_7/state");
    assert!(pubs[1].retain);
    assert_eq!(pubs[2].topic, "homecore/devices/zwave_7/availability");
    match &pubs[2].payload {
        Payload::Text(t) => assert_eq!(t, "online"),
        _ => panic!("availability payload is not text"),
    }
}

#[test]
fn availability_by_status() {
    let mut node = NodeState { node_id: 3, name: None, location: None, status: None, values: vec![] };
    assert!(!node.is_available());
    for (status, available) in [(1u8, false), (2, true), (3, false), (4, true), (5, false)] {
        node.status = Some(status);
        assert_eq!(node.is_available(), available, "status {status}");
    }
}

#[test]
fn unnamed_node_registers_under_device_id() {
    let t = Translator::new();
    let node = NodeState { node_id: 3, name: Some(String::new()), location: None, status: Some(3), values: vec![] };
    let pubs = publish_node("p", &node, &t);
    match &pubs[0].payload {
        Payload::Json(doc) => assert_eq!(member(doc, "name"), Some(&string("zwave_3"))),
        _ => panic!(),
    }
    match &pubs[2].payload {
        Payload::Text(t) => assert_eq!(t, "offline"),
        _ => panic!(),
    }
}

#[test]
fn value_updated_event() {
    let t = Translator::new();
    let ev = event("value updated", Some(5));
    let args = ValueUpdatedArgs {
        command_class: 98,
        endpoint: 0,
        property: "currentMode".to_string(),
        property_key: None,
        new_value: num(0),
    };
    let pubs = handle_event(&ev, Some(&args), None, &t, "p");
    assert_eq!(pubs.len(), 1);
    assert_eq!(pubs[0].topic, "homecore/devices/zwave_5/state/partial");
    assert!(!pubs[0].retain);
    match &pubs[0].payload {
        Payload::Json(doc) => assert_eq!(doc, &object(vec![("locked", JsonValue::Bool(false))])),
        _ => panic!(),
    }
    // Meter keyed by a numeric property key.
    let meter = ValueUpdatedArgs {
        command_class: 50,
        endpoint: 0,
        property: "value".to_string(),
        property_key: Some(num(65538)),
        new_value: num(12),
    };
    let pubs = handle_event(&event("value added", Some(5)), Some(&meter), None, &t, "p");
    match &pubs[0].payload {
        Payload::Json(doc) => assert_eq!(doc, &object(vec![("energy_kwh", num(12))])),
        _ => panic!(),
    }
    // Unknown ValueIDs and unreadable args publish nothing.
    assert!(handle_event(&ev, None, None, &t, "p").is_empty());
}

#[test]
fn status_events() {
    let t = Translator::new();
    let mut ev = event("node status changed", Some(9));
    ev.args = Some(object(vec![("status", num(4))]));
    let pubs = handle_event(&ev, None, None, &t, "p");
    assert_eq!(pubs.len(), 1);
    assert_eq!(pubs[0].topic, "homecore/devices/zwave_9/availability");
    assert!(pubs[0].retain);
    match &pubs[0].payload {
        Payload::Text(s) => assert_eq!(s, "online"),
        _ => panic!(),
    }
    ev.args = Some(object(vec![("status", num(3))]));
    match &handle_event(&ev, None, None, &t, "p")[0].payload {
        Payload::Text(s) => assert_eq!(s, "offline"),
        _ => panic!(),
    }
    let removed = handle_event(&event("node removed", Some(9)), None, None, &t, "p");
    match &removed[0].payload {
        Payload::Text(s) => assert_eq!(s, "offline"),
        _ => panic!(),
    }
    assert!(handle_event(&event("node removed", None), None, None, &t, "p").is_empty());
    assert!(handle_event(&event("statistics updated", Some(9)), None, None, &t, "p").is_empty());
}

#[test]
fn name_and_location_events() {
    let t = Translator::new();
    let mut ev = event("node name updated", Some(2));
    ev.name = Some("Kitchen".to_string());
    let pubs = handle_event(&ev, None, None, &t, "plug");
    assert_eq!(pubs.len(), 2);
    assert_eq!(pubs[0].topic, "homecore/plugins/plug/register");
    match &pubs[1].payload {
        Payload::Json(doc) => assert_eq!(doc, &object(vec![("name", string("Kitchen"))])),
        _ => panic!(),
    }
    let mut ev = event("node location updated", Some(2));
    ev.location = Some("Upstairs".to_string());
    let pubs = handle_event(&ev, None, None, &t, "plug");
    assert_eq!(pubs.len(), 1);
    match &pubs[0].payload {
        Payload::Json(doc) => assert_eq!(doc, &object(vec![("location", string("Upstairs"))])),
        _ => panic!(),
    }
    assert!(handle_event(&event("node name updated", Some(2)), None, None, &t, "plug").is_empty());
}

#[test]
fn node_ready_event() {
    let t = Translator::new();
    let node = sample_node();
    let pubs = handle_event(&event("node ready", Some(11)), None, Some(&node), &t, "p");
    assert_eq!(pubs.len(), 3);
    // The event's node id names the device.
    assert_eq!(pubs[1].topic, "homecore/devices/zwave_11/state");
    assert!(handle_event(&event("node ready", Some(11)), None, None, &t, "p").is_empty());
}

#[test]
fn command_results() {
    let ok = ServerMsg::Result(ResultMsg {
        message_id: "hc-zwave-init".to_string(),
        success: true,
        result: None,
        error_code: None,
    });
    let failed = ServerMsg::Result(ResultMsg {
        message_id: "hc-zwave-init".to_string(),
        success: false,
        result: None,
        error_code: Some("busy".to_string()),
    });
    let other = ServerMsg::Version(VersionMsg {
        driver_version: "1".to_string(),
        server_version: "2".to_string(),
        home_id: None,
        min_schema_version: 0,
        max_schema_version: 40,
    });
    let event_msg = ServerMsg::Event(EventWrapper { event: event("x", None) });
    assert!(matches!(result_decision(&ok, "hc-zwave-init"), ResultDecision::Accept));
    assert!(matches!(result_decision(&failed, "hc-zwave-init"), ResultDecision::Fail));
    assert!(matches!(result_decision(&ok, "hc-zwave-listen"), ResultDecision::Wait));
    assert!(matches!(result_decision(&other, "hc-zwave-init"), ResultDecision::Wait));
    assert!(matches!(result_decision(&event_msg, "hc-zwave-init"), ResultDecision::Wait));
}

#[test]
fn schema_negotiation() {
    assert_eq!(negotiate_schema(32, 0, 40), 32);
    assert_eq!(negotiate_schema(32, 0, 20), 20);
    assert_eq!(negotiate_schema(32, 35, 40), 35);
    assert_eq!(negotiate_schema(5, 5, 5), 5);
}

#[test]
fn handshake_messages() {
    assert_eq!(
        set_api_schema_message(32),
        object(vec![
            ("messageId", string("hc-zwave-init")),
            ("command", string("set_api_schema")),
            ("schemaVersion", num(32)),
        ])
    );
    assert_eq!(
        start_listening_message(),
        object(vec![("messageId", string("hc-zwave-listen")), ("command", string("start_listening"))])
    );
}

#[test]
fn listening_result_nodes() {
    let nodes = JsonValue::Array(vec![object(vec![("nodeId", num(1))]), object(vec![("nodeId", num(2))])]);
    let result = ResultMsg {
        message_id: "hc-zwave-listen".to_string(),
        success: true,
        result: Some(object(vec![("state", object(vec![("controller", JsonValue::Null), ("nodes", nodes)]))])),
        error_code: None,
    };
    let found = listening_nodes(&result);
    assert_eq!(found.len(), 2);
    assert_eq!(found[1], object(vec![("nodeId", num(2))]));
    let empty = ResultMsg { message_id: String::new(), success: true, result: Some(object(vec![])), error_code: None };
    assert!(listening_nodes(&empty).is_empty());
    let not_array = ResultMsg {
        message_id: String::new(),
        success: true,
        result: Some(object(vec![("state", object(vec![("nodes", num(3))]))])),
        error_code: None,
    };
    assert!(listening_nodes(&not_array).is_empty());
}

#[test]
fn set_value_messages() {
    let cmd = SetValueCmd {
        node_id: 7,
        command_class: 98,
        endpoint: 0,
        property: "targetMode".to_string(),
        value: num(255),
    };
    let msg = set_value_message(&cmd, "hc-sv-1");
    assert_eq!(
        msg,
        object(vec![
            ("messageId", string("hc-sv-1")),
            ("command", string("node.set_value")),
            ("nodeId", num(7)),
            (
                "valueId",
                object(vec![("commandClass", num(98)), ("endpoint", num(0)), ("property", string("targetMode"))])
            ),
            ("value", num(255)),
        ])
    );
    let id = set_value_message_id();
    assert_eq!(id.len(), 42);
    assert!(id.starts_with("hc-sv-"));
    let uuid = &id[6..];
    for (i, c) in uuid.chars().enumerate() {
        if [8, 13, 18, 23].contains(&i) {
            assert_eq!(c, '-');
        } else {
            assert!(c.is_ascii_hexdigit() && !c.is_ascii_uppercase());
        }
    }
    assert_ne!(set_value_message_id(), id);
}

#[test]
fn backoff_sequence() {
    let mut b = initial_backoff_secs();
    let mut seen = vec![b];
    for _ in 0..6 {
        b = next_backoff_secs(b);
        seen.push(b);
    }
    assert_eq!(seen, vec![2, 4, 8, 16, 32, 60, 60]);
    assert_eq!(next_backoff_secs(45), 60);
}

#[test]
fn mqtt_connection_settings() {
    let mut cfg = HomecoreConfig {
        broker_host: "10.0.0.2".to_string(),
        broker_port: 1884,
        plugin_id: "plugin.zwave".to_string(),
        password: String::new(),
    };
    let s = mqtt_settings(&cfg);
    assert_eq!((s.client_id.as_str(), s.host.as_str(), s.port), ("plugin.zwave", "10.0.0.2", 1884));
    assert_eq!(s.keep_alive_secs, 30);
    assert!(s.clean_session);
    assert!(s.credentials.is_none());
    cfg.password = "SECRET-REDACTED".to_string();
    let s = mqtt_settings(&cfg);
    assert_eq!(s.credentials, Some(("plugin.zwave".to_string(), "SECRET-REDACTED".to_string())));
}
