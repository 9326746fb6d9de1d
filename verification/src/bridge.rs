//! Bridge between zwave-js-server WebSocket and HomeCore MQTT: the
//! decisions the bridge takes.
//!
//! # Flow
//!
//! 1. Connect MQTT → subscribe `homecore/devices/+/cmd`
//! 2. Connect WebSocket → handshake (set_api_schema → start_listening)
//! 3. Publish full state for all nodes from the start_listening result
//! 4. Event loop:
//!    - WS `value updated`       → translate → `homecore/devices/zwave_N/state/partial`
//!    - WS `node status changed` → `homecore/devices/zwave_N/availability`
//!    - WS `node name updated`   → partial state `{"name": "..."}`
//!    - WS `node ready`          → republish full node state
//!    - MQTT cmd                 → `node.set_value` WebSocket command
//! 5. Reconnect on WS disconnect with exponential back-off
//!
//! The sockets themselves are driven by the program around this library:
//! it hands each received message to the functions here and performs the
//! publications and commands they return.

use vstd::prelude::*;
use crate::assoc::AssocList;
use crate::config::{Config, HomecoreConfig};
use crate::json::{
    JsonValue, JsonView, NumberView, is_object_of, lemma_members_map_assoc,
    members_view, object_get, as_u64_spec,
};
use crate::text::{
    lemma_index_of_at, lemma_nat_text_digits, lemma_parse_nat_text, is_digit,
    concat2, concat3, nat_text, owned, parse_u32, parse_u32_spec, split_once, split_once_spec, str_eq,
    strip_prefix, strip_prefix_spec, u64_text,
};
use crate::translator::{
    Translator, WriteTargetView, alias_key_spec, apply_spec, opt_str_view, property_key_str,
    property_key_text, reverse_spec,
};
use crate::types::{
    NodeState, NodeStateView, NodeValue, NodeValueView, RawEvent, RawEventView, ResultMsg,
    ServerMsg, ValueUpdatedArgs, ValueUpdatedArgsView, opt_json_view, status_available,
};

verus! {

// ---------------------------------------------------------------------------
// Device ids and topics
// ---------------------------------------------------------------------------

/// The HomeCore device id of a Z-Wave node: `zwave_` and the node id.
pub open spec fn device_id_spec(node_id: u32) -> Seq<char> {
    "zwave_"@ + nat_text(node_id as nat)
}

/// The HomeCore device id of a Z-Wave node.
pub fn node_device_id(node_id: u32) -> (r: String)
    ensures
        r@ == device_id_spec(node_id),
{
    let digits = u64_text(node_id as u64);
    concat2("zwave_", digits.as_str())
}

pub open spec fn state_topic_spec(device_id: Seq<char>) -> Seq<char> {
    "homecore/devices/"@ + device_id + "/state"@
}

pub open spec fn partial_topic_spec(device_id: Seq<char>) -> Seq<char> {
    "homecore/devices/"@ + device_id + "/state/partial"@
}

pub open spec fn availability_topic_spec(device_id: Seq<char>) -> Seq<char> {
    "homecore/devices/"@ + device_id + "/availability"@
}

pub open spec fn register_topic_spec(plugin_id: Seq<char>) -> Seq<char> {
    "homecore/plugins/"@ + plugin_id + "/register"@
}

/// The MQTT topic filter on which HomeCore sends commands to devices.  MQTT
/// `+` must occupy a full topic level, so all devices are subscribed and
/// commands for devices other than Z-Wave nodes are ignored.
pub fn command_topic_filter() -> (r: &'static str)
    ensures
        r@ == "homecore/devices/+/cmd"@,
{
    "homecore/devices/+/cmd"
}

// ---------------------------------------------------------------------------
// MQTT publications
// ---------------------------------------------------------------------------

/// What an MQTT publication carries.
pub enum Payload {
    /// A JSON document.
    Json(JsonValue),
    /// Plain text.
    Text(String),
}

/// An MQTT publication, sent with QoS "at least once".
pub struct Publication {
    pub topic: String,
    pub payload: Payload,
    pub retain: bool,
}

pub enum PayloadView {
    Json(JsonView),
    Text(Seq<char>),
}

pub struct PublicationView {
    pub topic: Seq<char>,
    pub payload: PayloadView,
    pub retain: bool,
}

impl View for Payload {
    type V = PayloadView;

    open spec fn view(&self) -> PayloadView {
        match self {
            Payload::Json(v) => PayloadView::Json(v@),
            Payload::Text(t) => PayloadView::Text(t@),
        }
    }
}

impl View for Publication {
    type V = PublicationView;

    open spec fn view(&self) -> PublicationView {
        PublicationView { topic: self.topic@, payload: self.payload@, retain: self.retain }
    }
}

/// The views of a list of publications.
pub open spec fn publications_view(p: Seq<Publication>) -> Seq<PublicationView> {
    p.map_values(|x: Publication| x@)
}

/// The full state of a device, retained.
pub open spec fn state_publication(device_id: Seq<char>, state: JsonView) -> PublicationView {
    PublicationView { topic: state_topic_spec(device_id), payload: PayloadView::Json(state), retain: true }
}

/// A change to part of the state of a device.
pub open spec fn partial_publication(device_id: Seq<char>, patch: JsonView) -> PublicationView {
    PublicationView { topic: partial_topic_spec(device_id), payload: PayloadView::Json(patch), retain: false }
}

/// Whether a device is online, retained.
pub open spec fn availability_publication(device_id: Seq<char>, available: bool) -> PublicationView {
    PublicationView {
        topic: availability_topic_spec(device_id),
        payload: PayloadView::Text(if available { "online"@ } else { "offline"@ }),
        retain: true,
    }
}

/// The registration document of a device.
pub open spec fn register_document(plugin_id: Seq<char>, device_id: Seq<char>, name: Seq<char>) -> JsonView {
    JsonView::Object(
        seq![
            ("device_id"@, JsonView::Str(device_id)),
            ("plugin_id"@, JsonView::Str(plugin_id)),
            ("name"@, JsonView::Str(name)),
            ("device_type"@, JsonView::Str("zwave"@)),
        ],
    )
}

/// The registration of a device with HomeCore.
pub open spec fn register_publication(plugin_id: Seq<char>, device_id: Seq<char>, name: Seq<char>) -> PublicationView {
    PublicationView {
        topic: register_topic_spec(plugin_id),
        payload: PayloadView::Json(register_document(plugin_id, device_id, name)),
        retain: false,
    }
}

/// An object of one member.
pub open spec fn single_member(key: Seq<char>, value: JsonView) -> JsonView {
    JsonView::Object(seq![(key, value)])
}

fn single_member_object(key: &str, value: JsonValue) -> (r: JsonValue)
    ensures
        r@ == single_member(key@, value@),
{
    let mut members: Vec<(String, JsonValue)> = Vec::new();
    members.push((owned(key), value));
    let r = JsonValue::Object(members);
    proof {
        crate::json::lemma_members_view_index(members@);
        assert(members_view(members@) =~= seq![(key@, value@)]);
    }
    r
}

pub fn publish_state(device_id: &str, state: JsonValue) -> (r: Publication)
    ensures
        r@ == state_publication(device_id@, state@),
{
    Publication { topic: concat3("homecore/devices/", device_id, "/state"), payload: Payload::Json(state), retain: true }
}

pub fn publish_partial(device_id: &str, patch: JsonValue) -> (r: Publication)
    ensures
        r@ == partial_publication(device_id@, patch@),
{
    Publication {
        topic: concat3("homecore/devices/", device_id, "/state/partial"),
        payload: Payload::Json(patch),
        retain: false,
    }
}

pub fn publish_availability(device_id: &str, available: bool) -> (r: Publication)
    ensures
        r@ == availability_publication(device_id@, available),
{
    let payload = if available { "online" } else { "offline" };
    Publication {
        topic: concat3("homecore/devices/", device_id, "/availability"),
        payload: Payload::Text(owned(payload)),
        retain: true,
    }
}

pub fn register_node(plugin_id: &str, device_id: &str, name: &str) -> (r: Publication)
    ensures
        r@ == register_publication(plugin_id@, device_id@, name@),
{
    let mut members: Vec<(String, JsonValue)> = Vec::new();
    members.push((owned("device_id"), JsonValue::string(device_id)));
    members.push((owned("plugin_id"), JsonValue::string(plugin_id)));
    members.push((owned("name"), JsonValue::string(name)));
    members.push((owned("device_type"), JsonValue::string("zwave")));
    proof {
        crate::json::lemma_members_view_index(members@);
        assert(members_view(members@) =~= seq![
            ("device_id"@, JsonView::Str(device_id@)),
            ("plugin_id"@, JsonView::Str(plugin_id@)),
            ("name"@, JsonView::Str(name@)),
            ("device_type"@, JsonView::Str("zwave"@)),
        ]);
    }
    Publication {
        topic: concat3("homecore/plugins/", plugin_id, "/register"),
        payload: Payload::Json(JsonValue::Object(members)),
        retain: false,
    }
}

// ---------------------------------------------------------------------------
// Node state → MQTT
// ---------------------------------------------------------------------------

/// A node value added to a state map: where it has a non-null value and its
/// ValueID is in the alias table, its attribute maps to the translated
/// value; otherwise the map is unchanged.
pub open spec fn translate_into(
    m: Map<Seq<char>, JsonView>,
    v: NodeValueView,
    forward: Map<Seq<char>, (Seq<char>, crate::translator::Transform)>,
) -> Map<Seq<char>, JsonView> {
    match v.value {
        Some(raw) => if raw == JsonView::Null {
            m
        } else {
            let pk = match v.property_key {
                Some(p) => property_key_text(p),
                None => None,
            };
            let key = alias_key_spec(v.command_class, v.endpoint, v.property, pk);
            if forward.contains_key(key) {
                m.insert(forward[key].0, apply_spec(forward[key].1, raw))
            } else {
                m
            }
        },
        None => m,
    }
}

/// Each node value of `values` added to `m` in turn.
pub open spec fn translate_all(
    m: Map<Seq<char>, JsonView>,
    values: Seq<NodeValueView>,
    forward: Map<Seq<char>, (Seq<char>, crate::translator::Transform)>,
) -> Map<Seq<char>, JsonView>
    decreases values.len(),
{
    if values.len() == 0 {
        m
    } else {
        translate_into(translate_all(m, values.drop_last(), forward), values.last(), forward)
    }
}

/// The state map of a node: its name and location where present and not
/// empty, then every translated value.
pub open spec fn state_map(
    node: NodeStateView,
    forward: Map<Seq<char>, (Seq<char>, crate::translator::Transform)>,
) -> Map<Seq<char>, JsonView> {
    let m0 = Map::<Seq<char>, JsonView>::empty();
    let m1 = match node.name {
        Some(n) => if n.len() > 0 { m0.insert("name"@, JsonView::Str(n)) } else { m0 },
        None => m0,
    };
    let m2 = match node.location {
        Some(l) => if l.len() > 0 { m1.insert("location"@, JsonView::Str(l)) } else { m1 },
        None => m1,
    };
    translate_all(m2, node.values, forward)
}

/// The alias key that a node value is reported under: its command class,
/// endpoint and property, with its property key where it has one that
/// contributes text.
pub open spec fn reported_key(v: NodeValueView) -> Seq<char> {
    let key_text = if v.property_key is Some { property_key_text(v.property_key->0) } else { None };
    alias_key_spec(v.command_class, v.endpoint, v.property, key_text)
}

/// What a node value reports: for a non-null value under a key that the
/// forward map knows, its attribute and the value put through its
/// transform.
pub open spec fn reported_attribute(
    v: NodeValueView,
    forward: Map<Seq<char>, (Seq<char>, crate::translator::Transform)>,
) -> Option<(Seq<char>, JsonView)> {
    if v.value is Some && v.value->0 != JsonView::Null && forward.contains_key(reported_key(v)) {
        Some((forward[reported_key(v)].0, apply_spec(forward[reported_key(v)].1, v.value->0)))
    } else {
        None
    }
}

/// The full state of a node holds, for each attribute that its values
/// report, what the last value reporting that attribute reports, property
/// key included: if value `i` reports `(a, x)` and no later value reports
/// `a`, the state maps `a` to `x`.
pub proof fn lemma_state_holds_last_report(
    m: Map<Seq<char>, JsonView>,
    values: Seq<NodeValueView>,
    forward: Map<Seq<char>, (Seq<char>, crate::translator::Transform)>,
    i: int,
    a: Seq<char>,
    x: JsonView,
)
    requires
        0 <= i < values.len(),
        reported_attribute(values[i], forward) == Some((a, x)),
        forall|j: int|
            i < j < values.len() ==> !(#[trigger] reported_attribute(values[j], forward) matches Some((b, _)) && b == a),
    ensures
        translate_all(m, values, forward).contains_key(a),
        translate_all(m, values, forward)[a] == x,
    decreases values.len(),
{
    let p = values.drop_last();
    let last = values.last();
    let prev = translate_all(m, p, forward);
    if i < values.len() - 1 {
        assert(p[i] == values[i]);
        assert forall|j: int| i < j < p.len() implies !(#[trigger] reported_attribute(p[j], forward) matches Some((b, _))
            && b == a) by {
            assert(p[j] == values[j]);
        }
        lemma_state_holds_last_report(m, p, forward, i, a, x);
        let k = values.len() - 1;
        assert(values[k] == last);
        assert(!(reported_attribute(values[k], forward) matches Some((b, _)) && b == a));
    }
}

/// The same for the state map of a node.
pub proof fn lemma_node_state_holds_last_report(
    node: NodeStateView,
    forward: Map<Seq<char>, (Seq<char>, crate::translator::Transform)>,
    i: int,
    a: Seq<char>,
    x: JsonView,
)
    requires
        0 <= i < node.values.len(),
        reported_attribute(node.values[i], forward) == Some((a, x)),
        forall|j: int|
            i < j < node.values.len() ==> !(#[trigger] reported_attribute(node.values[j], forward) matches Some((b, _))
                && b == a),
    ensures
        state_map(node, forward).contains_key(a),
        state_map(node, forward)[a] == x,
{
    let m0 = Map::<Seq<char>, JsonView>::empty();
    let m1 = match node.name {
        Some(n) => if n.len() > 0 { m0.insert("name"@, JsonView::Str(n)) } else { m0 },
        None => m0,
    };
    let m2 = match node.location {
        Some(l) => if l.len() > 0 { m1.insert("location"@, JsonView::Str(l)) } else { m1 },
        None => m1,
    };
    lemma_state_holds_last_report(m2, node.values, forward, i, a, x);
}


/// A node whose last value is a power meter report (command class 50,
/// property `value`, property key 65537) of a non-null value `raw` has
/// `power_w: raw` in its full state.
pub proof fn lemma_power_meter_in_state(node: NodeStateView, raw: JsonView)
    requires
        node.values.len() > 0,
        node.values.last() == (NodeValueView {
            command_class: 50,
            endpoint: 0,
            property: "value"@,
            property_key: Some(JsonView::Number(NumberView::PosInt(65537))),
            value: Some(raw),
        }),
        raw != JsonView::Null,
    ensures
        state_map(node, crate::translator::forward_of(crate::translator::alias_table_spec())).contains_key("power_w"@),
        state_map(node, crate::translator::forward_of(crate::translator::alias_table_spec()))["power_w"@] == raw,
{
    let forward = crate::translator::forward_of(crate::translator::alias_table_spec());
    crate::translator::lemma_power_meter(raw);
    let i = node.values.len() - 1;
    assert(node.values[i] == node.values.last());
    lemma_node_state_holds_last_report(node, forward, i, "power_w"@, raw);
}


/// Adds one node value to a state map, translated via the alias table.
pub fn translate_node_value(v: &NodeValue, translator: &Translator, map: &mut AssocList<JsonValue>)
    ensures
        final(map)@ == translate_into(old(map)@, v@, translator@.forward),
{
    let raw = match &v.value {
        Some(val) => {
            if matches!(val, JsonValue::Null) {
                return;
            }
            val
        },
        None => return,
    };
    let pk_str = match &v.property_key {
        Some(p) => property_key_str(p),
        None => None,
    };
    let pk: Option<&str> = match &pk_str {
        Some(s) => Some(s.as_str()),
        None => None,
    };
    proof {
        let pkv = match v@.property_key {
            Some(p) => property_key_text(p),
            None => None,
        };
        assert(opt_str_view(pk) == pkv);
    }
    match translator.translate(v.command_class, v.endpoint, v.property.as_str(), pk, raw) {
        Some((attr, val)) => map.insert(attr, val),
        None => {},
    }
}

/// The display name of a node: its name where present and not empty,
/// otherwise its device id.
pub open spec fn display_name_spec(name: Option<Seq<char>>, device_id: Seq<char>) -> Seq<char> {
    match name {
        Some(n) => if n.len() > 0 { n } else { device_id },
        None => device_id,
    }
}

fn display_name(name: &Option<String>, device_id: &str) -> (r: String)
    ensures
        r@ == display_name_spec(crate::types::opt_string_view(*name), device_id@),
{
    match name {
        Some(n) => {
            if n.as_str().unicode_len() > 0 {
                n.clone()
            } else {
                owned(device_id)
            }
        },
        None => owned(device_id),
    }
}

/// Build a full state map from a NodeState, translating each value via the alias table.
pub fn build_state(node: &NodeState, translator: &Translator) -> (r: JsonValue)
    ensures
        is_object_of(r@, state_map(node@, translator@.forward)),
{
    let mut map: AssocList<JsonValue> = AssocList::new();
    // Include name/location if present
    match &node.name {
        Some(name) => {
            if name.as_str().unicode_len() > 0 {
                map.insert(owned("name"), JsonValue::String(name.clone()));
            }
        },
        None => {},
    }
    match &node.location {
        Some(loc) => {
            if loc.as_str().unicode_len() > 0 {
                map.insert(owned("location"), JsonValue::String(loc.clone()));
            }
        },
        None => {},
    }
    let ghost values = node@.values;
    let ghost m2 = map@;
    let mut i: usize = 0;
    while i < node.values.len()
        invariant
            i <= node.values@.len(),
            values == node@.values,
            values.len() == node.values@.len(),
            forall|j: int| 0 <= j < values.len() ==> #[trigger] values[j] == node.values@[j]@,
            map@ == translate_all(m2, values.take(i as int), translator@.forward),
        decreases node.values@.len() - i,
    {
        translate_node_value(&node.values[i], translator, &mut map);
        proof {
            assert(values.take(i + 1).drop_last() =~= values.take(i as int));
            assert(values.take(i + 1).last() == values[i as int]);
        }
        i = i + 1;
    }
    proof {
        assert(values.take(i as int) =~= values);
    }
    let entries = map.into_entries();
    proof {
        lemma_members_map_assoc(entries@);
    }
    JsonValue::Object(entries)
}

/// The publications that make a node known to HomeCore under `device_id`:
/// its registration under its display name, its full state, and its
/// availability.
pub open spec fn node_publications_spec(
    plugin_id: Seq<char>,
    device_id: Seq<char>,
    node: NodeStateView,
    state: JsonView,
) -> Seq<PublicationView> {
    seq![
        register_publication(plugin_id, device_id, display_name_spec(node.name, device_id)),
        state_publication(device_id, state),
        availability_publication(device_id, status_available(node.status)),
    ]
}

/// The publications that make `node` known under `device_id`.
fn node_publications(plugin_id: &str, device_id: &str, node: &NodeState, translator: &Translator) -> (r: Vec<Publication>)
    ensures
        r@.len() == 3,
        r@[1]@.payload matches PayloadView::Json(state) && is_object_of(state, state_map(node@, translator@.forward))
            && publications_view(r@) == node_publications_spec(plugin_id@, device_id@, node@, state),
{
    let name = display_name(&node.name, device_id);
    let mut r: Vec<Publication> = Vec::new();
    r.push(register_node(plugin_id, device_id, name.as_str()));
    let state = build_state(node, translator);
    r.push(publish_state(device_id, state));
    r.push(publish_availability(device_id, node.is_available()));
    proof {
        let st = r@[1]@.payload->Json_0;
        assert(publications_view(r@) =~= node_publications_spec(plugin_id@, device_id@, node@, st));
    }
    r
}

/// Register a node, publish its full state and its availability.
pub fn publish_node(plugin_id: &str, node: &NodeState, translator: &Translator) -> (r: Vec<Publication>)
    ensures
        r@.len() == 3,
        r@[1]@.payload matches PayloadView::Json(state) && is_object_of(state, state_map(node@, translator@.forward))
            && publications_view(r@) == node_publications_spec(plugin_id@, device_id_spec(node.node_id), node@, state),
{
    let device_id = node_device_id(node.node_id);
    node_publications(plugin_id, device_id.as_str(), node, translator)
}


// ---------------------------------------------------------------------------
// WS events
// ---------------------------------------------------------------------------

/// The partial state that a value update yields: the translated value under
/// its attribute, where the ValueID is in the alias table.
pub open spec fn value_update_publications(
    device_id: Seq<char>,
    args: Option<ValueUpdatedArgsView>,
    forward: Map<Seq<char>, (Seq<char>, crate::translator::Transform)>,
) -> Seq<PublicationView> {
    match args {
        Some(a) => {
            let pk = match a.property_key {
                Some(p) => property_key_text(p),
                None => None,
            };
            let key = alias_key_spec(a.command_class, a.endpoint, a.property, pk);
            if forward.contains_key(key) {
                seq![
                    partial_publication(
                        device_id,
                        single_member(forward[key].0, apply_spec(forward[key].1, a.new_value)),
                    ),
                ]
            } else {
                Seq::empty()
            }
        },
        None => Seq::empty(),
    }
}

/// Whether the `status` argument of a "node status changed" event means
/// the node is reachable: 2 (Awake) or 4 (Alive).
pub open spec fn status_online(args: Option<JsonView>) -> bool {
    match args {
        Some(a) => match object_get(a, "status"@) {
            Some(st) => as_u64_spec(st) == Some(2u64) || as_u64_spec(st) == Some(4u64),
            None => false,
        },
        None => false,
    }
}

/// The publications for an event about a node, other than "node ready"
/// (whose state document is pinned down by its map alone).
pub open spec fn event_publications(
    plugin_id: Seq<char>,
    device_id: Seq<char>,
    ev: RawEventView,
    args: Option<ValueUpdatedArgsView>,
    forward: Map<Seq<char>, (Seq<char>, crate::translator::Transform)>,
) -> Seq<PublicationView> {
    if ev.event == "value updated"@ || ev.event == "value added"@ {
        value_update_publications(device_id, args, forward)
    } else if ev.event == "node status changed"@ {
        seq![availability_publication(device_id, status_online(ev.args))]
    } else if ev.event == "node name updated"@ {
        match ev.name {
            Some(name) => seq![
                register_publication(plugin_id, device_id, name),
                partial_publication(device_id, single_member("name"@, JsonView::Str(name))),
            ],
            None => Seq::empty(),
        }
    } else if ev.event == "node location updated"@ {
        match ev.location {
            Some(loc) => seq![partial_publication(device_id, single_member("location"@, JsonView::Str(loc)))],
            None => Seq::empty(),
        }
    } else if ev.event == "node removed"@ {
        seq![availability_publication(device_id, false)]
    } else {
        Seq::empty()
    }
}

pub open spec fn opt_args_view(a: Option<&ValueUpdatedArgs>) -> Option<ValueUpdatedArgsView> {
    match a {
        Some(x) => Some(x@),
        None => None,
    }
}

pub open spec fn opt_node_view(n: Option<&NodeState>) -> Option<NodeStateView> {
    match n {
        Some(x) => Some(x@),
        None => None,
    }
}

/// What the bridge publishes for an event: nothing for an event without a
/// node id; for "node ready" with a readable node state, the node's
/// registration, full state and availability under the event's node id;
/// otherwise [`event_publications`].
pub open spec fn event_outcome(
    r: Seq<Publication>,
    ev: RawEventView,
    args: Option<ValueUpdatedArgsView>,
    node: Option<NodeStateView>,
    forward: Map<Seq<char>, (Seq<char>, crate::translator::Transform)>,
    plugin_id: Seq<char>,
) -> bool {
    match ev.node_id {
        None => r.len() == 0,
        Some(id) => if ev.event == "node ready"@ {
            match node {
                Some(n) => {
                    &&& r.len() == 3
                    &&& r[1]@.payload matches PayloadView::Json(state)
                        && is_object_of(state, state_map(n, forward))
                        && publications_view(r) == node_publications_spec(plugin_id, device_id_spec(id), n, state)
                },
                None => r.len() == 0,
            }
        } else {
            publications_view(r) == event_publications(plugin_id, device_id_spec(id), ev, args, forward)
        },
    }
}

/// A "node status changed" event publishes, retained on the device's
/// availability topic, `online` exactly when the event's `status` argument
/// is 2 (Awake) or 4 (Alive), and `offline` otherwise (1 Asleep, 3 Dead,
/// 5 Unknown, or no status).
pub proof fn lemma_status_change_availability(
    r: Seq<Publication>,
    ev: RawEventView,
    args: Option<ValueUpdatedArgsView>,
    node: Option<NodeStateView>,
    forward: Map<Seq<char>, (Seq<char>, crate::translator::Transform)>,
    plugin_id: Seq<char>,
    id: u32,
)
    requires
        ev.node_id == Some(id),
        ev.event == "node status changed"@,
        event_outcome(r, ev, args, node, forward, plugin_id),
    ensures
        r.len() == 1,
        r[0]@.topic == "homecore/devices/zwave_"@ + nat_text(id as nat) + "/availability"@,
        r[0]@.retain,
        r[0]@.payload == PayloadView::Text(
            if ev.args is Some && (object_get(ev.args->0, "status"@) == Some(JsonView::Number(NumberView::PosInt(2)))
                || object_get(ev.args->0, "status"@) == Some(JsonView::Number(NumberView::PosInt(4)))) {
                "online"@
            } else {
                "offline"@
            },
        ),
{
    reveal_strlit("node status changed");
    reveal_strlit("node ready");
    reveal_strlit("value updated");
    reveal_strlit("value added");
    reveal_strlit("homecore/devices/");
    reveal_strlit("zwave_");
    assert("node status changed"@.len() != "node ready"@.len());
    assert("node status changed"@.len() != "value updated"@.len());
    assert("node status changed"@.len() != "value added"@.len());
    let dev = device_id_spec(id);
    assert(publications_view(r) == event_publications(plugin_id, dev, ev, args, forward));
    assert(event_publications(plugin_id, dev, ev, args, forward) == seq![
        availability_publication(dev, status_online(ev.args)),
    ]);
    assert(publications_view(r).len() == r.len());
    assert(publications_view(r)[0] == r[0]@);
    assert(("homecore/devices/"@ + ("zwave_"@ + nat_text(id as nat)) + "/availability"@) =~= (
    "homecore/devices/zwave_"@ + nat_text(id as nat) + "/availability"@)) by {
        reveal_strlit("homecore/devices/zwave_");
        assert("homecore/devices/zwave_"@ =~= "homecore/devices/"@ + "zwave_"@);
    }
}

/// A "node name updated" event carrying name `n` re-registers the device
/// under that name and publishes it as a partial state change.
pub proof fn lemma_name_update_registers_name(
    r: Seq<Publication>,
    ev: RawEventView,
    args: Option<ValueUpdatedArgsView>,
    node: Option<NodeStateView>,
    forward: Map<Seq<char>, (Seq<char>, crate::translator::Transform)>,
    plugin_id: Seq<char>,
    id: u32,
    n: Seq<char>,
)
    requires
        ev.node_id == Some(id),
        ev.event == "node name updated"@,
        ev.name == Some(n),
        event_outcome(r, ev, args, node, forward, plugin_id),
    ensures
        r.len() == 2,
        r[0]@.topic == "homecore/plugins/"@ + plugin_id + "/register"@,
        r[0]@.payload == PayloadView::Json(
            JsonView::Object(
                seq![
                    ("device_id"@, JsonView::Str("zwave_"@ + nat_text(id as nat))),
                    ("plugin_id"@, JsonView::Str(plugin_id)),
                    ("name"@, JsonView::Str(n)),
                    ("device_type"@, JsonView::Str("zwave"@)),
                ],
            ),
        ),
        r[1]@.topic == "homecore/devices/"@ + ("zwave_"@ + nat_text(id as nat)) + "/state/partial"@,
        r[1]@.payload == PayloadView::Json(JsonView::Object(seq![("name"@, JsonView::Str(n))])),
{
    reveal_strlit("node name updated");
    reveal_strlit("node status changed");
    reveal_strlit("node ready");
    reveal_strlit("value updated");
    reveal_strlit("value added");
    assert("node name updated"@.len() != "node ready"@.len());
    assert("node name updated"@.len() != "node status changed"@.len());
    assert("node name updated"@.len() != "value updated"@.len());
    assert("node name updated"@.len() != "value added"@.len());
    let dev = device_id_spec(id);
    assert(publications_view(r) == event_publications(plugin_id, dev, ev, args, forward));
    assert(event_publications(plugin_id, dev, ev, args, forward) == seq![
        register_publication(plugin_id, dev, n),
        partial_publication(dev, single_member("name"@, JsonView::Str(n))),
    ]);
    assert(publications_view(r).len() == r.len());
    assert(publications_view(r)[0] == r[0]@);
    assert(publications_view(r)[1] == r[1]@);
}


/// A "value updated" or "value added" event publishes, on the device's
/// partial-state topic, the one attribute that its ValueID (property key
/// included) translates to, with the translated value; a ValueID that the
/// forward map does not know publishes nothing.
pub proof fn lemma_value_update_partial(
    r: Seq<Publication>,
    ev: RawEventView,
    a: ValueUpdatedArgsView,
    node: Option<NodeStateView>,
    forward: Map<Seq<char>, (Seq<char>, crate::translator::Transform)>,
    plugin_id: Seq<char>,
    id: u32,
)
    requires
        ev.node_id == Some(id),
        ev.event == "value updated"@ || ev.event == "value added"@,
        event_outcome(r, ev, Some(a), node, forward, plugin_id),
    ensures
        ({
            let key_text = if a.property_key is Some { property_key_text(a.property_key->0) } else { None };
            let key = alias_key_spec(a.command_class, a.endpoint, a.property, key_text);
            if forward.contains_key(key) {
                &&& r.len() == 1
                &&& r[0]@.topic == "homecore/devices/"@ + ("zwave_"@ + nat_text(id as nat)) + "/state/partial"@
                &&& !r[0]@.retain
                &&& r[0]@.payload == PayloadView::Json(
                    JsonView::Object(seq![(forward[key].0, apply_spec(forward[key].1, a.new_value))]),
                )
            } else {
                r.len() == 0
            }
        }),
{
    reveal_strlit("node ready");
    reveal_strlit("value updated");
    reveal_strlit("value added");
    assert("value updated"@.len() != "node ready"@.len());
    assert("value added"@.len() != "node ready"@.len());
    let dev = device_id_spec(id);
    assert(publications_view(r) == event_publications(plugin_id, dev, ev, Some(a), forward));
    assert(publications_view(r).len() == r.len());
    if r.len() > 0 {
        assert(publications_view(r)[0] == r[0]@);
    }
}

/// A "node removed" event marks the device offline, retained.
pub proof fn lemma_node_removed_offline(
    r: Seq<Publication>,
    ev: RawEventView,
    args: Option<ValueUpdatedArgsView>,
    node: Option<NodeStateView>,
    forward: Map<Seq<char>, (Seq<char>, crate::translator::Transform)>,
    plugin_id: Seq<char>,
    id: u32,
)
    requires
        ev.node_id == Some(id),
        ev.event == "node removed"@,
        event_outcome(r, ev, args, node, forward, plugin_id),
    ensures
        r.len() == 1,
        r[0]@.topic == "homecore/devices/"@ + ("zwave_"@ + nat_text(id as nat)) + "/availability"@,
        r[0]@.retain,
        r[0]@.payload == PayloadView::Text("offline"@),
{
    reveal_strlit("node removed");
    reveal_strlit("node ready");
    reveal_strlit("value updated");
    reveal_strlit("value added");
    reveal_strlit("node status changed");
    reveal_strlit("node name updated");
    reveal_strlit("node location updated");
    assert("node removed"@.len() != "node ready"@.len());
    assert("node removed"@.len() != "value updated"@.len());
    assert("node removed"@.len() != "value added"@.len());
    assert("node removed"@.len() != "node status changed"@.len());
    assert("node removed"@.len() != "node name updated"@.len());
    assert("node removed"@.len() != "node location updated"@.len());
    let dev = device_id_spec(id);
    assert(publications_view(r) == event_publications(plugin_id, dev, ev, args, forward));
    assert(publications_view(r).len() == r.len());
    assert(publications_view(r)[0] == r[0]@);
}


fn value_update(device_id: &str, args: Option<&ValueUpdatedArgs>, translator: &Translator) -> (r: Vec<Publication>)
    ensures
        publications_view(r@) == value_update_publications(device_id@, opt_args_view(args), translator@.forward),
{
    let mut r: Vec<Publication> = Vec::new();
    match args {
        Some(a) => {
            let pk_str = match &a.property_key {
                Some(p) => property_key_str(p),
                None => None,
            };
            let pk: Option<&str> = match &pk_str {
                Some(s) => Some(s.as_str()),
                None => None,
            };
            match translator.translate(a.command_class, a.endpoint, a.property.as_str(), pk, &a.new_value) {
                Some((attr, val)) => {
                    let patch = single_member_object(attr.as_str(), val);
                    r.push(publish_partial(device_id, patch));
                },
                None => {},
            }
        },
        None => {},
    }
    assert(publications_view(r@) =~= value_update_publications(device_id@, opt_args_view(args), translator@.forward));
    r
}

fn node_status_online(args: &Option<JsonValue>) -> (r: bool)
    ensures
        r == status_online(opt_json_view(*args)),
{
    match args {
        Some(a) => match a.get("status") {
            Some(st) => match st.as_u64() {
                Some(n) => n == 2 || n == 4,
                None => false,
            },
            None => false,
        },
        None => false,
    }
}

/// The publications for an event from zwave-js-server.  `value_args` is the
/// event's `args` read as a value update and `node` its `nodeState` read as
/// a node, each where it could be read so.
pub fn handle_event(
    ev: &RawEvent,
    value_args: Option<&ValueUpdatedArgs>,
    node: Option<&NodeState>,
    translator: &Translator,
    plugin_id: &str,
) -> (r: Vec<Publication>)
    ensures
        event_outcome(r@, ev@, opt_args_view(value_args), opt_node_view(node), translator@.forward, plugin_id@),
{
    let node_id = match ev.node_id {
        Some(id) => id,
        None => return Vec::new(),
    };
    let device_id = node_device_id(node_id);
    let event = ev.event.as_str();
    proof {
        reveal_strlit("node ready");
        reveal_strlit("value updated");
        reveal_strlit("value added");
        reveal_strlit("node status changed");
        reveal_strlit("node name updated");
        reveal_strlit("node location updated");
        reveal_strlit("node removed");
        assert("value updated"@.len() != "node ready"@.len());
        assert("value added"@.len() != "node ready"@.len());
        assert("node status changed"@.len() != "node ready"@.len());
        assert("node name updated"@.len() != "node ready"@.len());
        assert("node location updated"@ != "node ready"@);
        assert("node removed"@ != "node ready"@);
    }
    let ghost e = ev@;
    let ghost expected = event_publications(plugin_id@, device_id@, e, opt_args_view(value_args), translator@.forward);
    if str_eq(event, "value updated") || str_eq(event, "value added") {
        value_update(device_id.as_str(), value_args, translator)
    } else if str_eq(event, "node status changed") {
        // args.status: 1=Asleep, 2=Awake, 3=Dead, 4=Alive
        let available = node_status_online(&ev.args);
        let mut r: Vec<Publication> = Vec::new();
        r.push(publish_availability(device_id.as_str(), available));
        assert(publications_view(r@) =~= expected);
        r
    } else if str_eq(event, "node ready") {
        match node {
            Some(n) => node_publications(plugin_id, device_id.as_str(), n, translator),
            None => Vec::new(),
        }
    } else if str_eq(event, "node name updated") {
        let mut r: Vec<Publication> = Vec::new();
        match &ev.name {
            Some(name) => {
                r.push(register_node(plugin_id, device_id.as_str(), name.as_str()));
                let patch = single_member_object("name", JsonValue::String(name.clone()));
                r.push(publish_partial(device_id.as_str(), patch));
            },
            None => {},
        }
        assert(publications_view(r@) =~= expected);
        r
    } else if str_eq(event, "node location updated") {
        let mut r: Vec<Publication> = Vec::new();
        match &ev.location {
            Some(loc) => {
                let patch = single_member_object("location", JsonValue::String(loc.clone()));
                r.push(publish_partial(device_id.as_str(), patch));
            },
            None => {},
        }
        assert(publications_view(r@) =~= expected);
        r
    } else if str_eq(event, "node removed") {
        let mut r: Vec<Publication> = Vec::new();
        r.push(publish_availability(device_id.as_str(), false));
        assert(publications_view(r@) =~= expected);
        r
    } else {
        let r: Vec<Publication> = Vec::new();
        assert(publications_view(r@) =~= expected);
        r
    }
}

/// The publications for a frame from zwave-js-server: those of its event,
/// where it is one; a failed command result, and anything else, publishes
/// nothing.
pub fn handle_ws_message(
    msg: &ServerMsg,
    value_args: Option<&ValueUpdatedArgs>,
    node: Option<&NodeState>,
    translator: &Translator,
    plugin_id: &str,
) -> (r: Vec<Publication>)
    ensures
        match msg {
            ServerMsg::Event(w) => event_outcome(
                r@,
                w.event@,
                opt_args_view(value_args),
                opt_node_view(node),
                translator@.forward,
                plugin_id@,
            ),
            _ => r@.len() == 0,
        },
{
    match msg {
        ServerMsg::Event(w) => handle_event(&w.event, value_args, node, translator, plugin_id),
        _ => Vec::new(),
    }
}


// ---------------------------------------------------------------------------
// WebSocket handshake
// ---------------------------------------------------------------------------

/// The message id of the `set_api_schema` command.
pub fn init_message_id() -> (r: &'static str)
    ensures
        r@ == "hc-zwave-init"@,
{
    "hc-zwave-init"
}

/// The message id of the `start_listening` command.
pub fn listen_message_id() -> (r: &'static str)
    ensures
        r@ == "hc-zwave-listen"@,
{
    "hc-zwave-listen"
}

/// What to do with a frame while waiting for the result of a command.
pub enum ResultDecision {
    /// Not the awaited result: keep reading.
    Wait,
    /// The awaited result, reporting success.
    Accept,
    /// The awaited result, reporting failure.
    Fail,
}

/// The decision on a frame while awaiting the result of command
/// `expected_id`.
pub open spec fn result_decision_spec(msg: ServerMsg, expected_id: Seq<char>) -> ResultDecision {
    match msg {
        ServerMsg::Result(r) => if r.message_id@ == expected_id {
            if r.success { ResultDecision::Accept } else { ResultDecision::Fail }
        } else {
            ResultDecision::Wait
        },
        _ => ResultDecision::Wait,
    }
}

/// Decides on a frame while awaiting the result of command `expected_id`.
pub fn result_decision(msg: &ServerMsg, expected_id: &str) -> (r: ResultDecision)
    ensures
        r == result_decision_spec(*msg, expected_id@),
{
    match msg {
        ServerMsg::Result(r) => {
            if str_eq(r.message_id.as_str(), expected_id) {
                if r.success {
                    ResultDecision::Accept
                } else {
                    ResultDecision::Fail
                }
            } else {
                ResultDecision::Wait
            }
        },
        _ => ResultDecision::Wait,
    }
}

/// The schema version to use: the one asked for, clamped to the range that
/// the server supports.
pub fn negotiate_schema(requested: u32, min: u32, max: u32) -> (r: u32)
    requires
        min <= max,
    ensures
        r == if requested < min { min } else if requested > max { max } else { requested },
{
    if requested < min {
        min
    } else if requested > max {
        max
    } else {
        requested
    }
}

pub open spec fn set_api_schema_document(schema_version: u32) -> JsonView {
    JsonView::Object(
        seq![
            ("messageId"@, JsonView::Str("hc-zwave-init"@)),
            ("command"@, JsonView::Str("set_api_schema"@)),
            ("schemaVersion"@, JsonView::Number(NumberView::PosInt(schema_version as u64))),
        ],
    )
}

pub open spec fn start_listening_document() -> JsonView {
    JsonView::Object(
        seq![
            ("messageId"@, JsonView::Str("hc-zwave-listen"@)),
            ("command"@, JsonView::Str("start_listening"@)),
        ],
    )
}

/// The command that sets the API schema version.
pub fn set_api_schema_message(schema_version: u32) -> (r: JsonValue)
    ensures
        r@ == set_api_schema_document(schema_version),
{
    let mut members: Vec<(String, JsonValue)> = Vec::new();
    members.push((owned("messageId"), JsonValue::string(init_message_id())));
    members.push((owned("command"), JsonValue::string("set_api_schema")));
    members.push((owned("schemaVersion"), JsonValue::uint(schema_version as u64)));
    proof {
        crate::json::lemma_members_view_index(members@);
        assert(members_view(members@) =~= set_api_schema_document(schema_version)->Object_0);
    }
    JsonValue::Object(members)
}

/// The command that starts listening and returns the full Z-Wave state.
pub fn start_listening_message() -> (r: JsonValue)
    ensures
        r@ == start_listening_document(),
{
    let mut members: Vec<(String, JsonValue)> = Vec::new();
    members.push((owned("messageId"), JsonValue::string(listen_message_id())));
    members.push((owned("command"), JsonValue::string("start_listening")));
    proof {
        crate::json::lemma_members_view_index(members@);
        assert(members_view(members@) =~= start_listening_document()->Object_0);
    }
    JsonValue::Object(members)
}

/// The node documents of a `start_listening` result: `result.state.nodes`
/// where it is an array, else none.
pub open spec fn listening_nodes_spec(result: Option<JsonView>) -> Seq<JsonView> {
    match result {
        Some(r) => match object_get(r, "state"@) {
            Some(st) => match object_get(st, "nodes"@) {
                Some(JsonView::Array(items)) => items,
                _ => Seq::empty(),
            },
            None => Seq::empty(),
        },
        None => Seq::empty(),
    }
}

/// The node documents of a `start_listening` result.
pub fn listening_nodes(result: &ResultMsg) -> (r: Vec<JsonValue>)
    ensures
        crate::json::items_view(r@) == listening_nodes_spec(opt_json_view(result.result)),
{
    let empty: Vec<JsonValue> = Vec::new();
    let arr = match &result.result {
        Some(res) => match res.get("state") {
            Some(st) => match st.get("nodes") {
                Some(n) => n.as_array(),
                None => None,
            },
            None => None,
        },
        None => None,
    };
    match arr {
        Some(items) => {
            let mut out: Vec<JsonValue> = Vec::new();
            let mut i: usize = 0;
            while i < items.len()
                invariant
                    i <= items@.len(),
                    crate::json::items_view(out@) == crate::json::items_view(items@.take(i as int)),
                decreases items@.len() - i,
            {
                let c = items[i].copy();
                proof {
                    crate::json::lemma_items_view_push(out@, c);
                    crate::json::lemma_items_view_push(items@.take(i as int), items@[i as int]);
                    assert(items@.take(i as int).push(items@[i as int]) =~= items@.take(i + 1));
                }
                out.push(c);
                i = i + 1;
            }
            assert(items@.take(i as int) =~= items@);
            out
        },
        None => empty,
    }
}

// ---------------------------------------------------------------------------
// node.set_value
// ---------------------------------------------------------------------------

/// A `node.set_value` command to send for a HomeCore command.
pub struct SetValueCmd {
    pub node_id: u32,
    pub command_class: u32,
    pub endpoint: u32,
    pub property: String,
    pub value: JsonValue,
}

pub struct SetValueCmdView {
    pub node_id: u32,
    pub command_class: u32,
    pub endpoint: u32,
    pub property: Seq<char>,
    pub value: JsonView,
}

impl View for SetValueCmd {
    type V = SetValueCmdView;

    open spec fn view(&self) -> SetValueCmdView {
        SetValueCmdView {
            node_id: self.node_id,
            command_class: self.command_class,
            endpoint: self.endpoint,
            property: self.property@,
            value: self.value@,
        }
    }
}

pub open spec fn set_value_document(cmd: SetValueCmdView, message_id: Seq<char>) -> JsonView {
    JsonView::Object(
        seq![
            ("messageId"@, JsonView::Str(message_id)),
            ("command"@, JsonView::Str("node.set_value"@)),
            ("nodeId"@, JsonView::Number(NumberView::PosInt(cmd.node_id as u64))),
            (
                "valueId"@,
                JsonView::Object(
                    seq![
                        ("commandClass"@, JsonView::Number(NumberView::PosInt(cmd.command_class as u64))),
                        ("endpoint"@, JsonView::Number(NumberView::PosInt(cmd.endpoint as u64))),
                        ("property"@, JsonView::Str(cmd.property)),
                    ],
                ),
            ),
            ("value"@, cmd.value),
        ],
    )
}

/// The `node.set_value` command message for `cmd`, with id `message_id`.
pub fn set_value_message(cmd: &SetValueCmd, message_id: &str) -> (r: JsonValue)
    ensures
        r@ == set_value_document(cmd@, message_id@),
{
    let mut value_id: Vec<(String, JsonValue)> = Vec::new();
    value_id.push((owned("commandClass"), JsonValue::uint(cmd.command_class as u64)));
    value_id.push((owned("endpoint"), JsonValue::uint(cmd.endpoint as u64)));
    value_id.push((owned("property"), JsonValue::String(cmd.property.clone())));
    proof {
        crate::json::lemma_members_view_index(value_id@);
        assert(members_view(value_id@) =~= set_value_document(cmd@, message_id@)->Object_0[3].1->Object_0);
    }
    let mut members: Vec<(String, JsonValue)> = Vec::new();
    members.push((owned("messageId"), JsonValue::string(message_id)));
    members.push((owned("command"), JsonValue::string("node.set_value")));
    members.push((owned("nodeId"), JsonValue::uint(cmd.node_id as u64)));
    members.push((owned("valueId"), JsonValue::Object(value_id)));
    members.push((owned("value"), cmd.value.copy()));
    proof {
        crate::json::lemma_members_view_index(members@);
        assert(members_view(members@) =~= set_value_document(cmd@, message_id@)->Object_0);
    }
    JsonValue::Object(members)
}

/// Whether `c` is a lower-case hexadecimal digit.
pub open spec fn is_lower_hex(c: char) -> bool {
    ('0' <= c && c <= '9') || ('a' <= c && c <= 'f')
}

/// A UUID in hyphenated lower-case form: 36 characters, hyphens at 8, 13,
/// 18 and 23, lower-case hex digits elsewhere.
pub open spec fn is_hyphenated_uuid(s: Seq<char>) -> bool {
    &&& s.len() == 36
    &&& forall|i: int|
        0 <= i < 36 ==> if i == 8 || i == 13 || i == 18 || i == 23 {
            s[i] == '-'
        } else {
            is_lower_hex(#[trigger] s[i])
        }
}

/// `uuid::Uuid::new_v4().to_string()`: a random version-4 UUID in the
/// hyphenated lower-case form that its `Display` writes.  Claimed: that
/// form (36 characters, hyphens at 8, 13, 18, 23, lower-case hex elsewhere);
/// the digits themselves are random.
#[verifier::external_body]
fn new_uuid_text() -> (r: String)
    ensures
        is_hyphenated_uuid(r@),
{
    uuid::Uuid::new_v4().to_string()
}

/// A fresh message id for a `node.set_value` command: `hc-sv-` and a random
/// UUID.
pub fn set_value_message_id() -> (r: String)
    ensures
        r@.len() == 42,
        r@.take(6) == "hc-sv-"@,
        is_hyphenated_uuid(r@.skip(6)),
{
    let id = new_uuid_text();
    let r = concat2("hc-sv-", id.as_str());
    proof {
        reveal_strlit("hc-sv-");
        assert(r@.take(6) =~= "hc-sv-"@);
        assert(r@.skip(6) =~= id@);
    }
    r
}

// ---------------------------------------------------------------------------
// MQTT commands
// ---------------------------------------------------------------------------

/// The node that a command topic addresses: the topic must be
/// `{a}/{b}/zwave_{n}/cmd` (exactly four levels, the last `cmd`), and `n`
/// must read as a `u32`.
pub open spec fn command_topic_node_spec(topic: Seq<char>) -> Option<u32> {
    match split_once_spec(topic, '/') {
        Some((_, r0)) => match split_once_spec(r0, '/') {
            Some((_, r1)) => match split_once_spec(r1, '/') {
                Some((device, last)) => if last == "cmd"@ {
                    match strip_prefix_spec(device, "zwave_"@) {
                        Some(digits) => parse_u32_spec(digits),
                        None => None,
                    }
                } else {
                    None
                },
                None => None,
            },
            None => None,
        },
        None => None,
    }
}

/// The node that a command topic addresses.
pub fn command_topic_node(topic: &str) -> (r: Option<u32>)
    ensures
        r == command_topic_node_spec(topic@),
{
    // Topic: homecore/devices/zwave_{nodeId}/cmd
    match split_once(topic, '/') {
        Some((_, r0)) => match split_once(r0, '/') {
            Some((_, r1)) => match split_once(r1, '/') {
                Some((device, last)) => {
                    if str_eq(last, "cmd") {
                        match strip_prefix(device, "zwave_") {
                            Some(digits) => parse_u32(digits),
                            None => None,  // not a zwave device — ignore
                        }
                    } else {
                        None
                    }
                },
                None => None,
            },
            None => None,
        },
        None => None,
    }
}

/// The `node.set_value` commands for the members of a HomeCore command
/// object, in order: each attribute with a write target becomes a command
/// to that target with the value put through the inverse transform; other
/// attributes are ignored.
pub open spec fn commands_for(
    node_id: u32,
    members: Seq<(Seq<char>, JsonView)>,
    reverse: Map<Seq<char>, WriteTargetView>,
) -> Seq<SetValueCmdView>
    decreases members.len(),
{
    if members.len() == 0 {
        Seq::empty()
    } else {
        let prev = commands_for(node_id, members.drop_last(), reverse);
        let (attr, value) = members.last();
        if reverse.contains_key(attr) {
            let t = reverse[attr];
            prev.push(
                SetValueCmdView {
                    node_id,
                    command_class: t.command_class,
                    endpoint: t.endpoint,
                    property: t.property,
                    value: reverse_spec(t.transform, value),
                },
            )
        } else {
            prev
        }
    }
}

/// The commands for an MQTT command message: none unless the topic
/// addresses a Z-Wave node and the payload is a JSON object.
pub open spec fn mqtt_commands_spec(
    topic: Seq<char>,
    payload: Option<JsonView>,
    reverse: Map<Seq<char>, WriteTargetView>,
) -> Seq<SetValueCmdView> {
    match command_topic_node_spec(topic) {
        Some(node_id) => match payload {
            Some(JsonView::Object(members)) => commands_for(node_id, members, reverse),
            _ => Seq::empty(),
        },
        None => Seq::empty(),
    }
}

pub open spec fn commands_view(c: Seq<SetValueCmd>) -> Seq<SetValueCmdView> {
    c.map_values(|x: SetValueCmd| x@)
}

/// The `node.set_value` commands for an MQTT message on `topic`; `payload`
/// is the message read as JSON, where it could be.
pub fn handle_mqtt_cmd(topic: &str, payload: Option<&JsonValue>, translator: &Translator) -> (r: Vec<SetValueCmd>)
    ensures
        commands_view(r@) == mqtt_commands_spec(topic@, opt_json_ref_view(payload), translator@.reverse),
{
    let mut out: Vec<SetValueCmd> = Vec::new();
    let node_id = match command_topic_node(topic) {
        Some(id) => id,
        None => {
            assert(commands_view(out@) =~= Seq::<SetValueCmdView>::empty());
            return out;
        },
    };
    let members = match payload {
        Some(JsonValue::Object(m)) => m,
        _ => {
            assert(commands_view(out@) =~= Seq::<SetValueCmdView>::empty());
            return out;
        },
    };
    proof {
        crate::json::lemma_members_view_index(members@);
    }
    let ghost ms = members_view(members@);
    let ghost rev = translator@.reverse;
    assert(commands_view(out@) =~= commands_for(node_id, ms.take(0), rev));
    let mut i: usize = 0;
    while i < members.len()
        invariant
            i <= members@.len(),
            ms == members_view(members@),
            ms.len() == members@.len(),
            rev == translator@.reverse,
            forall|j: int|
                0 <= j < members@.len() ==> #[trigger] ms[j] == (members@[j].0@, crate::json::json_view(members@[j].1)),
            commands_view(out@) == commands_for(node_id, ms.take(i as int), rev),
        decreases members@.len() - i,
    {
        let attr = members[i].0.as_str();
        let hc_value = &members[i].1;
        proof {
            assert(ms.take(i + 1).drop_last() =~= ms.take(i as int));
            assert(ms.take(i + 1).last() == ms[i as int]);
        }
        match translator.write_target(attr) {
            Some(target) => {
                let native_value = target.transform.reverse(hc_value);
                let cmd = SetValueCmd {
                    node_id,
                    command_class: target.command_class,
                    endpoint: target.endpoint,
                    property: target.property.clone(),
                    value: native_value,
                };
                let ghost before = out@;
                out.push(cmd);
                assert(commands_view(out@) =~= commands_view(before).push(cmd@));
            },
            None => {},
        }
        i = i + 1;
    }
    assert(ms.take(i as int) =~= ms);
    out
}

/// A command message of one member `attr: value` gives, where `attr` has a
/// write target, exactly one `node.set_value` to that target: its command
/// class, endpoint and property, with the value put through its inverse
/// transform; otherwise none.
pub proof fn lemma_command_for_one_member(
    node_id: u32,
    attr: Seq<char>,
    value: JsonView,
    reverse: Map<Seq<char>, WriteTargetView>,
)
    ensures
        commands_for(node_id, seq![(attr, value)], reverse) == if reverse.contains_key(attr) {
            seq![
                SetValueCmdView {
                    node_id,
                    command_class: reverse[attr].command_class,
                    endpoint: reverse[attr].endpoint,
                    property: reverse[attr].property,
                    value: reverse_spec(reverse[attr].transform, value),
                },
            ]
        } else {
            Seq::empty()
        },
{
    assert(seq![(attr, value)].drop_last() =~= Seq::<(Seq<char>, JsonView)>::empty());
    assert(commands_for(node_id, Seq::<(Seq<char>, JsonView)>::empty(), reverse) == Seq::<SetValueCmdView>::empty());
    assert(seq![(attr, value)].last() == (attr, value));
    if reverse.contains_key(attr) {
        assert(Seq::<SetValueCmdView>::empty().push(
            SetValueCmdView {
                node_id,
                command_class: reverse[attr].command_class,
                endpoint: reverse[attr].endpoint,
                property: reverse[attr].property,
                value: reverse_spec(reverse[attr].transform, value),
            },
        ) =~= seq![
            SetValueCmdView {
                node_id,
                command_class: reverse[attr].command_class,
                endpoint: reverse[attr].endpoint,
                property: reverse[attr].property,
                value: reverse_spec(reverse[attr].transform, value),
            },
        ]);
    }
}

/// The members of a command message are handled one after another: the
/// commands for two runs of members are those of the first, then those of
/// the second.
pub proof fn lemma_commands_for_append(
    node_id: u32,
    first: Seq<(Seq<char>, JsonView)>,
    second: Seq<(Seq<char>, JsonView)>,
    reverse: Map<Seq<char>, WriteTargetView>,
)
    ensures
        commands_for(node_id, first + second, reverse) == commands_for(node_id, first, reverse) + commands_for(
            node_id,
            second,
            reverse,
        ),
    decreases second.len(),
{
    if second.len() == 0 {
        assert(first + second =~= first);
        assert(commands_for(node_id, first, reverse) + Seq::<SetValueCmdView>::empty() =~= commands_for(
            node_id,
            first,
            reverse,
        ));
    } else {
        lemma_commands_for_append(node_id, first, second.drop_last(), reverse);
        assert((first + second).drop_last() =~= first + second.drop_last());
        assert((first + second).last() == second.last());
        let a = commands_for(node_id, first, reverse);
        let b = commands_for(node_id, second.drop_last(), reverse);
        let (attr, value) = second.last();
        if reverse.contains_key(attr) {
            let t = reverse[attr];
            let c = SetValueCmdView {
                node_id,
                command_class: t.command_class,
                endpoint: t.endpoint,
                property: t.property,
                value: reverse_spec(t.transform, value),
            };
            assert((a + b).push(c) =~= a + b.push(c));
        }
    }
}

/// A setpoint command `{"target_temp": v}` on the command topic of node `n`
/// becomes one `node.set_value` to node `n`, command class 67, endpoint 1,
/// property `value`, with `v` as it is.
pub proof fn lemma_setpoint_command(n: u32, v: JsonView)
    ensures
        mqtt_commands_spec(
            command_topic_spec(n),
            Some(JsonView::Object(seq![("target_temp"@, v)])),
            crate::translator::reverse_of(crate::translator::alias_table_spec()),
        ) == seq![SetValueCmdView { node_id: n, command_class: 67, endpoint: 1, property: "value"@, value: v }],
{
    lemma_command_topic_addresses_node(n);
    crate::translator::lemma_setpoint_write_target();
    lemma_command_for_one_member(
        n,
        "target_temp"@,
        v,
        crate::translator::reverse_of(crate::translator::alias_table_spec()),
    );
}


/// The command topic of a Z-Wave node's device.
pub open spec fn command_topic_spec(node_id: u32) -> Seq<char> {
    "homecore/devices/"@ + device_id_spec(node_id) + "/cmd"@
}

/// A command that HomeCore sends on the command topic of the device that
/// the bridge registered for node `n` is addressed to node `n`.
pub proof fn lemma_command_topic_addresses_node(n: u32)
    ensures
        command_topic_node_spec(command_topic_spec(n)) == Some(n),
{
    reveal_strlit("homecore/devices/");
    reveal_strlit("zwave_");
    reveal_strlit("/cmd");
    reveal_strlit("cmd");
    let digits = nat_text(n as nat);
    lemma_nat_text_digits(n as nat);
    let dev = "zwave_"@ + digits;
    let topic = command_topic_spec(n);
    assert(topic =~= "homecore/devices/"@ + dev + "/cmd"@);
    // first level: "homecore"
    lemma_index_of_at(topic, '/', 8);
    let r0 = topic.skip(9);
    assert(r0 =~= "devices/"@ + dev + "/cmd"@) by {
        reveal_strlit("devices/");
    }
    // second level: "devices"
    reveal_strlit("devices/");
    lemma_index_of_at(r0, '/', 7);
    let r1 = r0.skip(8);
    assert(r1 =~= dev + "/cmd"@);
    // third level: the device id, which holds no '/'
    assert forall|j: int| 0 <= j < dev.len() implies r1[j] != '/' by {
        if j >= 6 {
            assert(is_digit(digits[j - 6]));
        }
    }
    lemma_index_of_at(r1, '/', dev.len() as int);
    assert(r1.take(dev.len() as int) =~= dev);
    assert(r1.skip(dev.len() as int + 1) =~= "cmd"@);
    assert(dev.take(6) =~= "zwave_"@);
    assert(dev.skip(6) =~= digits);
    lemma_parse_nat_text(n);
}

pub open spec fn opt_json_ref_view(v: Option<&JsonValue>) -> Option<JsonView> {
    match v {
        Some(x) => Some(x@),
        None => None,
    }
}

// ---------------------------------------------------------------------------
// Reconnection and MQTT settings
// ---------------------------------------------------------------------------

/// The wait before the first reconnection attempt, in seconds.
pub fn initial_backoff_secs() -> (r: u64)
    ensures
        r == 2,
{
    2
}

/// The wait after another failed attempt: double the last, at most 60 s.
pub open spec fn next_backoff_spec(backoff_secs: u64) -> u64 {
    if backoff_secs * 2 < 60 { (backoff_secs * 2) as u64 } else { 60 }
}

/// The wait between reconnection attempts stays between 2 s and 60 s and
/// never shrinks; from 2 s it reaches 60 s after five failures.
pub proof fn lemma_backoff_bounded(backoff_secs: u64)
    requires
        2 <= backoff_secs <= 60,
    ensures
        2 <= next_backoff_spec(backoff_secs) <= 60,
        backoff_secs <= next_backoff_spec(backoff_secs),
        next_backoff_spec(next_backoff_spec(next_backoff_spec(next_backoff_spec(next_backoff_spec(2))))) == 60,
{
}

/// The wait after another failed attempt: double the last, at most 60 s.
pub fn next_backoff_secs(backoff_secs: u64) -> (r: u64)
    requires
        backoff_secs * 2 <= u64::MAX,
    ensures
        r == next_backoff_spec(backoff_secs),
{
    let doubled = backoff_secs * 2;
    if doubled < 60 {
        doubled
    } else {
        60
    }
}

/// How to connect to the MQTT broker.
pub struct MqttSettings {
    pub client_id: String,
    pub host: String,
    pub port: u16,
    pub keep_alive_secs: u64,
    pub clean_session: bool,
    /// User name and password, where a password is configured.
    pub credentials: Option<(String, String)>,
    /// How many requests the client queues.
    pub capacity: usize,
}

/// The MQTT connection settings for a `[homecore]` section: the plugin id
/// as client id (and user name, where a password is set), 30 s keep-alive,
/// a clean session.
pub fn mqtt_settings(cfg: &HomecoreConfig) -> (r: MqttSettings)
    ensures
        r.client_id@ == cfg.plugin_id@,
        r.host@ == cfg.broker_host@,
        r.port == cfg.broker_port,
        r.keep_alive_secs == 30,
        r.clean_session,
        r.capacity == 128,
        cfg.password@.len() == 0 ==> r.credentials is None,
        cfg.password@.len() > 0 ==> (r.credentials matches Some((u, p)) && u@ == cfg.plugin_id@ && p@
            == cfg.password@),
{
    let credentials = if cfg.password.as_str().unicode_len() > 0 {
        Some((cfg.plugin_id.clone(), cfg.password.clone()))
    } else {
        None
    };
    MqttSettings {
        client_id: cfg.plugin_id.clone(),
        host: cfg.broker_host.clone(),
        port: cfg.broker_port,
        keep_alive_secs: 30,
        clean_session: true,
        credentials,
        capacity: 128,
    }
}

/// How many `node.set_value` commands may wait between the MQTT reader and
/// the WebSocket writer.
pub fn command_channel_capacity() -> (r: usize)
    ensures
        r == 64,
{
    64
}

// ---------------------------------------------------------------------------
// Main bridge
// ---------------------------------------------------------------------------

pub struct Bridge {
    pub config: Config,
}

} // verus!
