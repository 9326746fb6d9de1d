//! zwave-js-server WebSocket protocol types.
//!
//! The server sends JSON frames with a top-level `"type"` discriminator:
//!   - `"version"`  — initial handshake, sent on connect
//!   - `"result"`   — response to commands we send
//!   - `"event"`    — ongoing node/controller events

use vstd::prelude::*;
use crate::json::{JsonValue, JsonView};

verus! {

// ---------------------------------------------------------------------------
// Top-level incoming message
// ---------------------------------------------------------------------------

pub enum ServerMsg {
    Version(VersionMsg),
    Result(ResultMsg),
    Event(EventWrapper),
}

// ---------------------------------------------------------------------------
// Version (first message on connect)
// ---------------------------------------------------------------------------

pub struct VersionMsg {
    pub driver_version: String,
    pub server_version: String,
    pub home_id: Option<u64>,
    pub min_schema_version: u32,
    pub max_schema_version: u32,
}

// ---------------------------------------------------------------------------
// Result
// ---------------------------------------------------------------------------

pub struct ResultMsg {
    pub message_id: String,
    pub success: bool,
    pub result: Option<JsonValue>,
    pub error_code: Option<String>,
}

// ---------------------------------------------------------------------------
// Events
// ---------------------------------------------------------------------------

pub struct EventWrapper {
    pub event: RawEvent,
}

/// Raw event — extra fields are kept as JSON values since zwave-js-server
/// event shapes vary by event name.
pub struct RawEvent {
    pub source: String,
    /// The event name, e.g. "value updated", "node status changed".
    pub event: String,
    pub node_id: Option<u32>,
    /// Present on "value updated", "value added".
    pub args: Option<JsonValue>,
    /// Present on "node ready".
    pub node_state: Option<JsonValue>,
    /// Present on "node name updated".
    pub name: Option<String>,
    /// Present on "node location updated".
    pub location: Option<String>,
}

// ---------------------------------------------------------------------------
// Value updated args
// ---------------------------------------------------------------------------

pub struct ValueUpdatedArgs {
    pub command_class: u32,
    pub endpoint: u32,
    pub property: String,
    /// Can be null, a number, or a string depending on the CC.
    pub property_key: Option<JsonValue>,
    pub new_value: JsonValue,
}

// ---------------------------------------------------------------------------
// Node state (from start_listening result and node ready event)
// ---------------------------------------------------------------------------

pub struct NodeState {
    pub node_id: u32,
    pub name: Option<String>,
    pub location: Option<String>,
    /// 1=Asleep, 2=Awake, 3=Dead, 4=Alive, 5=Unknown
    pub status: Option<u8>,
    pub values: Vec<NodeValue>,
}

/// One value entry from a node's value list.
pub struct NodeValue {
    pub command_class: u32,
    pub endpoint: u32,
    pub property: String,
    pub property_key: Option<JsonValue>,
    pub value: Option<JsonValue>,
}

/// The view of an optional string.
pub open spec fn opt_string_view(s: Option<String>) -> Option<Seq<char>> {
    match s {
        Some(x) => Some(x@),
        None => None,
    }
}

/// The view of an optional JSON value.
pub open spec fn opt_json_view(v: Option<JsonValue>) -> Option<JsonView> {
    match v {
        Some(x) => Some(x@),
        None => None,
    }
}

/// Whether a node status means the node is reachable: Awake (2) or Alive (4).
pub open spec fn status_available(status: Option<u8>) -> bool {
    status == Some(2u8) || status == Some(4u8)
}

impl NodeState {
    /// Whether the node is reachable (Alive or Awake).
    pub fn is_available(&self) -> (r: bool)
        ensures
            r == status_available(self.status),
    {
        match self.status {
            Some(2) | Some(4) => true,
            _ => false,
        }
    }
}


/// The view of a [`NodeValue`].
pub struct NodeValueView {
    pub command_class: u32,
    pub endpoint: u32,
    pub property: Seq<char>,
    pub property_key: Option<JsonView>,
    pub value: Option<JsonView>,
}

impl View for NodeValue {
    type V = NodeValueView;

    open spec fn view(&self) -> NodeValueView {
        NodeValueView {
            command_class: self.command_class,
            endpoint: self.endpoint,
            property: self.property@,
            property_key: opt_json_view(self.property_key),
            value: opt_json_view(self.value),
        }
    }
}

/// The view of a [`NodeState`].
pub struct NodeStateView {
    pub node_id: u32,
    pub name: Option<Seq<char>>,
    pub location: Option<Seq<char>>,
    pub status: Option<u8>,
    pub values: Seq<NodeValueView>,
}

impl View for NodeState {
    type V = NodeStateView;

    open spec fn view(&self) -> NodeStateView {
        NodeStateView {
            node_id: self.node_id,
            name: opt_string_view(self.name),
            location: opt_string_view(self.location),
            status: self.status,
            values: self.values@.map_values(|v: NodeValue| v@),
        }
    }
}

/// The view of [`ValueUpdatedArgs`].
pub struct ValueUpdatedArgsView {
    pub command_class: u32,
    pub endpoint: u32,
    pub property: Seq<char>,
    pub property_key: Option<JsonView>,
    pub new_value: JsonView,
}

impl View for ValueUpdatedArgs {
    type V = ValueUpdatedArgsView;

    open spec fn view(&self) -> ValueUpdatedArgsView {
        ValueUpdatedArgsView {
            command_class: self.command_class,
            endpoint: self.endpoint,
            property: self.property@,
            property_key: opt_json_view(self.property_key),
            new_value: self.new_value@,
        }
    }
}

/// The view of a [`RawEvent`].
pub struct RawEventView {
    pub source: Seq<char>,
    pub event: Seq<char>,
    pub node_id: Option<u32>,
    pub args: Option<JsonView>,
    pub node_state: Option<JsonView>,
    pub name: Option<Seq<char>>,
    pub location: Option<Seq<char>>,
}

impl View for RawEvent {
    type V = RawEventView;

    open spec fn view(&self) -> RawEventView {
        RawEventView {
            source: self.source@,
            event: self.event@,
            node_id: self.node_id,
            args: opt_json_view(self.args),
            node_state: opt_json_view(self.node_state),
            name: opt_string_view(self.name),
            location: opt_string_view(self.location),
        }
    }
}

} // verus!
