//! ValueID ↔ HomeCore attribute translation.
//!
//! Maps `{commandClass}/{endpoint}/{property}[/{propertyKey}]` to a canonical
//! HomeCore attribute name plus an optional value transform.
//!
//! For writable attributes (Binary Switch, Dimmer, Lock, Thermostat), the
//! write target property (e.g. `targetValue`) is recorded separately so
//! commands are sent to the correct Z-Wave property.

use vstd::prelude::*;
use crate::json::{
    JsonNumber, JsonValue, JsonView, NumberView, as_u64_spec, is_float_char, json_wf, number_text,
    number_wf, scalar_text,
};
use crate::assoc::AssocList;
use crate::text::{
    concat2, is_digit, lemma_index_of_at, lemma_index_of_none, lemma_nat_text_digits,
    lemma_parse_nat_text, nat_text, owned, parse_u32, parse_u32_spec, split_once, split_once_spec,
    str_eq, table_lookup, u64_text,
};


verus! {

// ---------------------------------------------------------------------------
// Thermostat Mode (CC 64) tables
// ---------------------------------------------------------------------------

/// Thermostat Mode CC 64 integer (as text) → canonical string.
pub open spec fn thermostat_mode_fwd_table() -> Seq<(Seq<char>, Seq<char>)> {
    seq![
        ("0"@, "off"@),
        ("1"@, "heat"@),
        ("2"@, "cool"@),
        ("3"@, "auto"@),
        ("6"@, "fan_only"@),
        ("11"@, "energy_heat"@),
    ]
}

/// Canonical string → Thermostat Mode CC 64 integer.
pub open spec fn thermostat_mode_rev_table() -> Seq<(Seq<char>, u64)> {
    seq![
        ("off"@, 0u64),
        ("heat"@, 1u64),
        ("cool"@, 2u64),
        ("auto"@, 3u64),
        ("fan_only"@, 6u64),
        ("energy_heat"@, 11u64),
    ]
}

/// The canonical thermostat mode name for a CC 64 mode number written as text.
pub open spec fn mode_fwd(key: Seq<char>) -> Option<Seq<char>> {
    table_lookup(thermostat_mode_fwd_table(), key)
}

/// The CC 64 mode number of a canonical thermostat mode name.
pub open spec fn mode_rev(key: Seq<char>) -> Option<u64> {
    table_lookup(thermostat_mode_rev_table(), key)
}

/// Looks up the canonical name of a thermostat mode number given as text.
pub fn thermostat_mode_fwd(key: &str) -> (r: Option<&'static str>)
    ensures
        match mode_fwd(key@) {
            Some(name) => r matches Some(x) && x@ == name,
            None => r is None,
        },
{
    let table: Vec<(&'static str, &'static str)> = vec![
        ("0", "off"),
        ("1", "heat"),
        ("2", "cool"),
        ("3", "auto"),
        ("6", "fan_only"),
        ("11", "energy_heat"),
    ];
    let ghost spec_table = thermostat_mode_fwd_table();
    assert(table@.len() == spec_table.len());
    assert(forall|j: int|
        0 <= j < table@.len() ==> (#[trigger] table@[j]).0@ == spec_table[j].0 && table@[j].1@
            == spec_table[j].1);
    assert(spec_table.skip(0) =~= spec_table);
    let mut i: usize = 0;
    while i < table.len()
        invariant
            i <= table@.len(),
            table@.len() == spec_table.len(),
            forall|j: int|
                0 <= j < table@.len() ==> (#[trigger] table@[j]).0@ == spec_table[j].0
                    && table@[j].1@ == spec_table[j].1,
            table_lookup(spec_table, key@) == table_lookup(spec_table.skip(i as int), key@),
            spec_table == thermostat_mode_fwd_table(),
        decreases table@.len() - i,
    {
        let ghost rest = spec_table.skip(i as int);
        assert(rest[0] == spec_table[i as int]);
        assert(rest.drop_first() =~= spec_table.skip(i + 1));
        if str_eq(table[i].0, key) {
            return Some(table[i].1);
        }
        i = i + 1;
    }
    assert(spec_table.skip(i as int).len() == 0);
    None
}

/// Looks up the thermostat mode number of a canonical mode name.
pub fn thermostat_mode_rev(key: &str) -> (r: Option<u64>)
    ensures
        r == mode_rev(key@),
{
    let table: Vec<(&'static str, u64)> = vec![
        ("off", 0),
        ("heat", 1),
        ("cool", 2),
        ("auto", 3),
        ("fan_only", 6),
        ("energy_heat", 11),
    ];
    let ghost spec_table = thermostat_mode_rev_table();
    assert(table@.len() == spec_table.len());
    assert(forall|j: int|
        0 <= j < table@.len() ==> (#[trigger] table@[j]).0@ == spec_table[j].0 && table@[j].1
            == spec_table[j].1);
    assert(spec_table.skip(0) =~= spec_table);
    let mut i: usize = 0;
    while i < table.len()
        invariant
            i <= table@.len(),
            table@.len() == spec_table.len(),
            forall|j: int|
                0 <= j < table@.len() ==> (#[trigger] table@[j]).0@ == spec_table[j].0
                    && table@[j].1 == spec_table[j].1,
            table_lookup(spec_table, key@) == table_lookup(spec_table.skip(i as int), key@),
            spec_table == thermostat_mode_rev_table(),
        decreases table@.len() - i,
    {
        let ghost rest = spec_table.skip(i as int);
        assert(rest[0] == spec_table[i as int]);
        assert(rest.drop_first() =~= spec_table.skip(i + 1));
        if str_eq(table[i].0, key) {
            return Some(table[i].1);
        }
        i = i + 1;
    }
    assert(spec_table.skip(i as int).len() == 0);
    None
}


/// The two thermostat mode tables are inverse to each other: a mode number
/// that names a mode maps back to that number, and a mode name that has a
/// number is the name of that number.
pub proof fn lemma_mode_tables_inverse()
    ensures
        forall|key: Seq<char>|
            #[trigger] mode_fwd(key) is Some ==> mode_rev(mode_fwd(key)->0) is Some && nat_text(
                mode_rev(mode_fwd(key)->0)->0 as nat,
            ) == key,
        forall|name: Seq<char>|
            #[trigger] mode_rev(name) is Some ==> mode_fwd(nat_text(mode_rev(name)->0 as nat)) == Some(name),
{
    reveal_strlit("0");
    reveal_strlit("1");
    reveal_strlit("2");
    reveal_strlit("3");
    reveal_strlit("6");
    reveal_strlit("11");
    reveal_strlit("off");
    reveal_strlit("heat");
    reveal_strlit("cool");
    reveal_strlit("auto");
    reveal_strlit("fan_only");
    reveal_strlit("energy_heat");
    reveal_with_fuel(table_lookup, 7);
    assert(nat_text(11) =~= seq!['1', '1']) by {
        reveal_with_fuel(nat_text, 3);
    }
    assert("0"@ =~= seq!['0']);
    assert("1"@ =~= seq!['1']);
    assert("2"@ =~= seq!['2']);
    assert("3"@ =~= seq!['3']);
    assert("6"@ =~= seq!['6']);
    assert("11"@ =~= seq!['1', '1']);
    assert("heat"@ != "off"@) by { assert("heat"@.len() != "off"@.len()); }
    assert("cool"@ != "off"@) by { assert("cool"@.len() != "off"@.len()); }
    assert("auto"@ != "off"@) by { assert("auto"@.len() != "off"@.len()); }
    assert("cool"@ != "heat"@) by { assert("cool"@[0] != "heat"@[0]); }
    assert("auto"@ != "heat"@) by { assert("auto"@[0] != "heat"@[0]); }
    assert("auto"@ != "cool"@) by { assert("auto"@[0] != "cool"@[0]); }
    assert("fan_only"@ != "off"@) by { assert("fan_only"@.len() != "off"@.len()); }
    assert("fan_only"@ != "heat"@) by { assert("fan_only"@.len() != "heat"@.len()); }
    assert("fan_only"@ != "cool"@) by { assert("fan_only"@.len() != "cool"@.len()); }
    assert("fan_only"@ != "auto"@) by { assert("fan_only"@.len() != "auto"@.len()); }
    assert("energy_heat"@ != "off"@) by { assert("energy_heat"@.len() != "off"@.len()); }
    assert("energy_heat"@ != "heat"@) by { assert("energy_heat"@.len() != "heat"@.len()); }
    assert("energy_heat"@ != "cool"@) by { assert("energy_heat"@.len() != "cool"@.len()); }
    assert("energy_heat"@ != "auto"@) by { assert("energy_heat"@.len() != "auto"@.len()); }
    assert("energy_heat"@ != "fan_only"@) by { assert("energy_heat"@.len() != "fan_only"@.len()); }
    assert(seq!['1'] != seq!['0']) by { assert(seq!['1'][0] != seq!['0'][0]); }
    assert(seq!['2'] != seq!['0']) by { assert(seq!['2'][0] != seq!['0'][0]); }
    assert(seq!['2'] != seq!['1']) by { assert(seq!['2'][0] != seq!['1'][0]); }
    assert(seq!['3'] != seq!['0']) by { assert(seq!['3'][0] != seq!['0'][0]); }
    assert(seq!['3'] != seq!['1']) by { assert(seq!['3'][0] != seq!['1'][0]); }
    assert(seq!['3'] != seq!['2']) by { assert(seq!['3'][0] != seq!['2'][0]); }
    assert(seq!['6'] != seq!['0']) by { assert(seq!['6'][0] != seq!['0'][0]); }
    assert(seq!['6'] != seq!['1']) by { assert(seq!['6'][0] != seq!['1'][0]); }
    assert(seq!['6'] != seq!['2']) by { assert(seq!['6'][0] != seq!['2'][0]); }
    assert(seq!['6'] != seq!['3']) by { assert(seq!['6'][0] != seq!['3'][0]); }
    assert(seq!['1', '1'] != seq!['0']) by { assert(seq!['1', '1'].len() != seq!['0'].len()); }
    assert(seq!['1', '1'] != seq!['1']) by { assert(seq!['1', '1'].len() != seq!['1'].len()); }
    assert(seq!['1', '1'] != seq!['2']) by { assert(seq!['1', '1'].len() != seq!['2'].len()); }
    assert(seq!['1', '1'] != seq!['3']) by { assert(seq!['1', '1'].len() != seq!['3'].len()); }
    assert(seq!['1', '1'] != seq!['6']) by { assert(seq!['1', '1'].len() != seq!['6'].len()); }
    assert(mode_rev("off"@) == Some(0u64));
    assert(mode_rev("heat"@) == Some(1u64));
    assert(mode_rev("cool"@) == Some(2u64));
    assert(mode_rev("auto"@) == Some(3u64));
    assert(mode_rev("fan_only"@) == Some(6u64));
    assert(mode_rev("energy_heat"@) == Some(11u64));
    assert(mode_fwd(seq!['0']) == Some("off"@));
    assert(mode_fwd(seq!['1']) == Some("heat"@));
    assert(mode_fwd(seq!['2']) == Some("cool"@));
    assert(mode_fwd(seq!['3']) == Some("auto"@));
    assert(mode_fwd(seq!['6']) == Some("fan_only"@));
    assert(mode_fwd(seq!['1', '1']) == Some("energy_heat"@));
}

// ---------------------------------------------------------------------------
// Transform pipeline
// ---------------------------------------------------------------------------

/// How a raw Z-Wave value becomes a HomeCore value, and back.
#[derive(Clone, Copy, Debug, PartialEq, Eq, Structural)]
pub enum Transform {
    /// Pass value through unchanged.
    Identity,
    /// Non-zero number/bool → true, zero → false.
    /// Used for Door Lock CC 98: 255 → true (locked), 0 → false.
    /// Also used for CC 113 Notification "Opening state" (1=open, 0=closed).
    NonzeroBool,
    /// CC 113 Access Control "Door state" numeric → contact_open bool.
    /// 22 = "Window/door is open" → true, 23 = "closed" / 0 = idle → false.
    AccessControlDoorState,
    /// Integer → canonical string via lookup table.
    /// Used for Thermostat Mode CC 64.
    ModeMap,
}

/// Whether a value counts as "on": a true boolean, or a number other than
/// zero (a float is zero when all bits but the sign are clear).
pub open spec fn is_nonzero(v: JsonView) -> bool {
    match v {
        JsonView::Bool(b) => b,
        JsonView::Number(NumberView::PosInt(n)) => n != 0,
        JsonView::Number(NumberView::NegInt(i)) => i != 0,
        JsonView::Number(NumberView::Float { bits, text }) => bits % 0x8000_0000_0000_0000 != 0,
        _ => false,
    }
}

/// The forward transform: raw Z-Wave value → HomeCore canonical value.
pub open spec fn apply_spec(t: Transform, v: JsonView) -> JsonView {
    match t {
        Transform::Identity => v,
        Transform::NonzeroBool => JsonView::Bool(is_nonzero(v)),
        Transform::AccessControlDoorState => JsonView::Bool(as_u64_spec(v) == Some(22u64)),
        Transform::ModeMap => match scalar_text(v) {
            Some(key) => match mode_fwd(key) {
                Some(name) => JsonView::Str(name),
                None => v,
            },
            None => v,
        },
    }
}

/// The inverse transform: HomeCore command value → native Z-Wave value.
pub open spec fn reverse_spec(t: Transform, v: JsonView) -> JsonView {
    match t {
        Transform::Identity => v,
        Transform::NonzeroBool => match v {
            JsonView::Bool(true) => JsonView::Number(NumberView::PosInt(255)),
            JsonView::Bool(false) => JsonView::Number(NumberView::PosInt(0)),
            _ => v,
        },
        Transform::AccessControlDoorState => v,
        Transform::ModeMap => match scalar_text(v) {
            Some(key) => match mode_rev(key) {
                Some(n) => JsonView::Number(NumberView::PosInt(n)),
                None => v,
            },
            None => v,
        },
    }
}

/// The boolean transforms on integers and booleans: `NonzeroBool` is true
/// exactly for a non-zero number or `true`; `AccessControlDoorState` is
/// true exactly for 22 ("Window/door is open"), so 23 (closed) and 0
/// (idle) are false.
pub proof fn lemma_boolean_transforms(n: u64, i: i64, b: bool)
    ensures
        apply_spec(Transform::NonzeroBool, JsonView::Number(NumberView::PosInt(n))) == JsonView::Bool(n != 0),
        apply_spec(Transform::NonzeroBool, JsonView::Number(NumberView::NegInt(i))) == JsonView::Bool(i != 0),
        apply_spec(Transform::NonzeroBool, JsonView::Bool(b)) == JsonView::Bool(b),
        apply_spec(Transform::NonzeroBool, JsonView::Null) == JsonView::Bool(false),
        apply_spec(Transform::AccessControlDoorState, JsonView::Number(NumberView::PosInt(n))) == JsonView::Bool(
            n == 22,
        ),
        apply_spec(Transform::AccessControlDoorState, JsonView::Bool(b)) == JsonView::Bool(false),
{
}

/// A door-lock command survives the way to the lock and back: `true` and
/// `false` are sent as 255 and 0 and read back as `true` and `false`; the
/// lock's own 255 and 0 are read as `true` and `false` and sent as 255 and 0.
pub proof fn lemma_nonzero_bool_round_trip(b: bool)
    ensures
        apply_spec(Transform::NonzeroBool, reverse_spec(Transform::NonzeroBool, JsonView::Bool(b)))
            == JsonView::Bool(b),
        reverse_spec(
            Transform::NonzeroBool,
            apply_spec(Transform::NonzeroBool, JsonView::Number(NumberView::PosInt(255))),
        ) == JsonView::Number(NumberView::PosInt(255)),
        reverse_spec(
            Transform::NonzeroBool,
            apply_spec(Transform::NonzeroBool, JsonView::Number(NumberView::PosInt(0))),
        ) == JsonView::Number(NumberView::PosInt(0)),
{
}

/// The thermostat mode mapping is integer ↔ name both ways: a mode number
/// that the table names comes back, after the trip to HomeCore and back, as
/// the same integer, and a mode name comes back as the same name.
pub proof fn lemma_mode_number_round_trip(n: u64, name: Seq<char>)
    ensures
        mode_fwd(nat_text(n as nat)) is Some ==> reverse_spec(
            Transform::ModeMap,
            apply_spec(Transform::ModeMap, JsonView::Number(NumberView::PosInt(n))),
        ) == JsonView::Number(NumberView::PosInt(n)),
        mode_rev(name) is Some ==> apply_spec(
            Transform::ModeMap,
            reverse_spec(Transform::ModeMap, JsonView::Str(name)),
        ) == JsonView::Str(name),
{
    lemma_mode_tables_inverse();
    if mode_fwd(nat_text(n as nat)) is Some {
        let nm = mode_fwd(nat_text(n as nat))->0;
        let m = mode_rev(nm)->0;
        assert(nat_text(m as nat) == nat_text(n as nat));
        lemma_nat_text_digits(m as nat);
        lemma_nat_text_digits(n as nat);
    }
}

/// Numbers as serde_json holds them never name a thermostat mode: a mode
/// command that is already a number is sent as it is, and a raw value that
/// is a float or a negative integer is passed through unchanged.
pub proof fn lemma_mode_map_keeps_numbers(n: NumberView)
    requires
        number_wf(n),
    ensures
        reverse_spec(Transform::ModeMap, JsonView::Number(n)) == JsonView::Number(n),
        !(n is PosInt) ==> apply_spec(Transform::ModeMap, JsonView::Number(n)) == JsonView::Number(n),
{
    let t = number_text(n);
    reveal_strlit("0");
    reveal_strlit("1");
    reveal_strlit("2");
    reveal_strlit("3");
    reveal_strlit("6");
    reveal_strlit("11");
    reveal_strlit("off");
    reveal_strlit("heat");
    reveal_strlit("cool");
    reveal_strlit("auto");
    reveal_strlit("fan_only");
    reveal_strlit("energy_heat");
    reveal_with_fuel(table_lookup, 7);
    // Every mode name holds a letter that no number's text holds.
    assert(mode_rev(t) is None) by {
        match n {
            NumberView::PosInt(u) => {
                lemma_nat_text_digits(u as nat);
                assert(is_digit(t[0]));
            },
            NumberView::NegInt(i) => {
                assert(t[0] == '-');
            },
            NumberView::Float { bits, text } => {
                assert(is_float_char(t[0]));
            },
        }
    }
    // Every mode number is a string of digits, which no float's or
    // negative integer's text is.
    if !(n is PosInt) {
        assert(mode_fwd(t) is None) by {
            match n {
                NumberView::NegInt(i) => {
                    assert(t[0] == '-');
                },
                NumberView::Float { bits, text } => {
                    let k = choose|k: int| 0 <= k < t.len() && (#[trigger] t[k] == '.' || t[k] == 'e' || t[k] == 'E');
                    assert(!is_digit(t[k]));
                },
                _ => {},
            }
        }
    }
}

impl Transform {
    /// Apply forward transform: raw ZWave value → HomeCore canonical value.
    pub fn apply(&self, v: &JsonValue) -> (r: JsonValue)
        ensures
            r@ == apply_spec(*self, v@),
            json_wf(v@) ==> json_wf(r@),
    {
        match self {
            Transform::Identity => v.copy(),
            Transform::NonzeroBool => {
                let nonzero = match v {
                    JsonValue::Bool(b) => *b,
                    JsonValue::Number(JsonNumber::PosInt(n)) => *n != 0,
                    JsonValue::Number(JsonNumber::NegInt(i)) => *i != 0,
                    JsonValue::Number(JsonNumber::Float { bits, text: _ }) => *bits % 0x8000_0000_0000_0000 != 0,
                    _ => false,
                };
                JsonValue::Bool(nonzero)
            },
            Transform::AccessControlDoorState => {
                // 22 = "Window/door is open", 23 = "Window/door is closed", 0 = idle
                let open = match v.as_u64() {
                    Some(n) => n == 22,
                    None => false,
                };
                JsonValue::Bool(open)
            },
            Transform::ModeMap => {
                match v.scalar_text() {
                    Some(key) => match thermostat_mode_fwd(key.as_str()) {
                        Some(name) => JsonValue::String(crate::text::owned(name)),
                        None => v.copy(),
                    },
                    None => v.copy(),
                }
            },
        }
    }

    /// Apply inverse transform: HomeCore command value → native ZWave value.
    pub fn reverse(&self, v: &JsonValue) -> (r: JsonValue)
        ensures
            r@ == reverse_spec(*self, v@),
            json_wf(v@) ==> json_wf(r@),
    {
        match self {
            Transform::Identity => v.copy(),
            Transform::NonzeroBool => {
                // true → 255, false → 0  (Door Lock secure/unsecure mode)
                match v {
                    JsonValue::Bool(true) => JsonValue::Number(JsonNumber::PosInt(255)),
                    JsonValue::Bool(false) => JsonValue::Number(JsonNumber::PosInt(0)),
                    _ => v.copy(),
                }
            },
            Transform::AccessControlDoorState => v.copy(),  // read-only
            Transform::ModeMap => {
                match v.scalar_text() {
                    Some(key) => match thermostat_mode_rev(key.as_str()) {
                        Some(n) => JsonValue::Number(JsonNumber::PosInt(n)),
                        None => v.copy(),
                    },
                    None => v.copy(),
                }
            },
        }
    }
}


// ---------------------------------------------------------------------------
// Alias table entry
// ---------------------------------------------------------------------------

struct AliasEntry {
    /// Alias key: "{cc}/{endpoint}/{property}" or "{cc}/{endpoint}/{property}/{propertyKey}"
    key: &'static str,
    attribute: &'static str,
    transform: Transform,
    /// If true, this entry is the preferred write target for the attribute.
    is_write: bool,
}

/// An entry of the alias table, as characters.
pub struct AliasSpec {
    pub key: Seq<char>,
    pub attribute: Seq<char>,
    pub transform: Transform,
    pub is_write: bool,
}

impl View for AliasEntry {
    type V = AliasSpec;

    closed spec fn view(&self) -> AliasSpec {
        AliasSpec {
            key: self.key@,
            attribute: self.attribute@,
            transform: self.transform,
            is_write: self.is_write,
        }
    }
}

/// Full alias table — order matches zwave.toml for consistency.
pub open spec fn alias_table_spec() -> Seq<AliasSpec> {
    seq![
        AliasSpec { key: "48/0/Motion"@, attribute: "motion"@, transform: Transform::Identity, is_write: false },
        AliasSpec { key: "48/0/Door/Window"@, attribute: "contact_open"@, transform: Transform::Identity, is_write: false },
        AliasSpec { key: "48/0/Water"@, attribute: "water_detected"@, transform: Transform::Identity, is_write: false },
        AliasSpec { key: "48/0/Smoke"@, attribute: "smoke"@, transform: Transform::Identity, is_write: false },
        AliasSpec { key: "48/0/CO"@, attribute: "co"@, transform: Transform::Identity, is_write: false },
        AliasSpec { key: "48/0/CO2"@, attribute: "co2_alarm"@, transform: Transform::Identity, is_write: false },
        AliasSpec { key: "48/0/Heat"@, attribute: "heat_alarm"@, transform: Transform::Identity, is_write: false },
        AliasSpec { key: "48/0/Freeze"@, attribute: "freeze"@, transform: Transform::Identity, is_write: false },
        AliasSpec { key: "48/0/Tamper"@, attribute: "tamper"@, transform: Transform::Identity, is_write: false },
        AliasSpec { key: "48/0/Tilt"@, attribute: "tilt"@, transform: Transform::Identity, is_write: false },
        AliasSpec { key: "48/0/Glass Break"@, attribute: "glass_break"@, transform: Transform::Identity, is_write: false },
        AliasSpec { key: "48/0/Any"@, attribute: "sensor_active"@, transform: Transform::Identity, is_write: false },
        AliasSpec { key: "37/0/currentValue"@, attribute: "on"@, transform: Transform::Identity, is_write: false },
        AliasSpec { key: "37/0/targetValue"@, attribute: "on"@, transform: Transform::Identity, is_write: true },
        AliasSpec { key: "38/0/currentValue"@, attribute: "brightness"@, transform: Transform::Identity, is_write: false },
        AliasSpec { key: "38/0/targetValue"@, attribute: "brightness"@, transform: Transform::Identity, is_write: true },
        AliasSpec { key: "49/0/Air temperature"@, attribute: "temperature"@, transform: Transform::Identity, is_write: false },
        AliasSpec { key: "49/0/Humidity"@, attribute: "humidity"@, transform: Transform::Identity, is_write: false },
        AliasSpec { key: "49/0/Luminance"@, attribute: "illuminance"@, transform: Transform::Identity, is_write: false },
        AliasSpec { key: "49/0/Ultraviolet"@, attribute: "uv_index"@, transform: Transform::Identity, is_write: false },
        AliasSpec { key: "49/0/CO2 level"@, attribute: "co2_ppm"@, transform: Transform::Identity, is_write: false },
        AliasSpec { key: "49/0/Atmospheric pressure"@, attribute: "pressure"@, transform: Transform::Identity, is_write: false },
        AliasSpec { key: "50/0/value/65537"@, attribute: "power_w"@, transform: Transform::Identity, is_write: false },
        AliasSpec { key: "50/0/value/65538"@, attribute: "energy_kwh"@, transform: Transform::Identity, is_write: false },
        AliasSpec { key: "50/0/value/65539"@, attribute: "voltage"@, transform: Transform::Identity, is_write: false },
        AliasSpec { key: "50/0/value/65540"@, attribute: "current_a"@, transform: Transform::Identity, is_write: false },
        AliasSpec { key: "50/0/value/131073"@, attribute: "gas_m3"@, transform: Transform::Identity, is_write: false },
        AliasSpec { key: "50/0/value/196609"@, attribute: "water_m3"@, transform: Transform::Identity, is_write: false },
        AliasSpec { key: "128/0/level"@, attribute: "battery"@, transform: Transform::Identity, is_write: false },
        AliasSpec { key: "128/0/isLow"@, attribute: "battery_low"@, transform: Transform::Identity, is_write: false },
        AliasSpec { key: "98/0/currentMode"@, attribute: "locked"@, transform: Transform::NonzeroBool, is_write: false },
        AliasSpec { key: "98/0/targetMode"@, attribute: "locked"@, transform: Transform::NonzeroBool, is_write: true },
        AliasSpec { key: "98/0/boltStatus"@, attribute: "bolt_status"@, transform: Transform::Identity, is_write: false },
        AliasSpec { key: "98/0/latchStatus"@, attribute: "latch_status"@, transform: Transform::Identity, is_write: false },
        AliasSpec { key: "98/0/doorStatus"@, attribute: "door_status"@, transform: Transform::Identity, is_write: false },
        AliasSpec { key: "98/0/operationType"@, attribute: "lock_operation_type"@, transform: Transform::Identity, is_write: true },
        AliasSpec { key: "98/0/lockTimeoutConfiguration"@, attribute: "lock_timeout_secs"@, transform: Transform::Identity, is_write: true },
        AliasSpec { key: "98/0/autoRelockTime"@, attribute: "lock_auto_relock_secs"@, transform: Transform::Identity, is_write: true },
        AliasSpec { key: "102/0/currentValue"@, attribute: "position"@, transform: Transform::Identity, is_write: false },
        AliasSpec { key: "102/0/targetValue"@, attribute: "position"@, transform: Transform::Identity, is_write: true },
        AliasSpec { key: "51/0/currentColor"@, attribute: "color_rgb"@, transform: Transform::Identity, is_write: false },
        AliasSpec { key: "51/0/targetColor"@, attribute: "color_rgb"@, transform: Transform::Identity, is_write: true },
        AliasSpec { key: "67/1/value"@, attribute: "target_temp"@, transform: Transform::Identity, is_write: true },
        AliasSpec { key: "64/0/mode"@, attribute: "mode"@, transform: Transform::ModeMap, is_write: true },
        AliasSpec { key: "66/0/state"@, attribute: "hvac_action"@, transform: Transform::Identity, is_write: false },
        AliasSpec { key: "113/0/Access Control/Door state"@, attribute: "contact_open"@, transform: Transform::AccessControlDoorState, is_write: false },
        AliasSpec { key: "113/0/Access Control/Opening state"@, attribute: "contact_open"@, transform: Transform::NonzeroBool, is_write: false },
        AliasSpec { key: "113/0/Home Security/Motion sensor status"@, attribute: "motion"@, transform: Transform::NonzeroBool, is_write: false },
        AliasSpec { key: "113/0/Home Security/Tampering, Product cover removed"@, attribute: "tamper"@, transform: Transform::NonzeroBool, is_write: false },
        AliasSpec { key: "113/0/Home Security/Tampering, invalid code"@, attribute: "tamper"@, transform: Transform::NonzeroBool, is_write: false },
        AliasSpec { key: "113/0/Smoke Alarm/Smoke sensor status"@, attribute: "smoke"@, transform: Transform::NonzeroBool, is_write: false },
        AliasSpec { key: "113/0/CO Alarm/CO sensor status"@, attribute: "co"@, transform: Transform::NonzeroBool, is_write: false },
        AliasSpec { key: "113/0/Water Alarm/Sensor status"@, attribute: "water_detected"@, transform: Transform::NonzeroBool, is_write: false },
    ]
}

fn alias_table() -> (r: Vec<AliasEntry>)
    ensures
        r@.len() == alias_table_spec().len(),
        forall|i: int| 0 <= i < r@.len() ==> (#[trigger] r@[i])@ == alias_table_spec()[i],
{
    let r = vec![
        AliasEntry { key: "48/0/Motion", attribute: "motion", transform: Transform::Identity, is_write: false },
        AliasEntry { key: "48/0/Door/Window", attribute: "contact_open", transform: Transform::Identity, is_write: false },
        AliasEntry { key: "48/0/Water", attribute: "water_detected", transform: Transform::Identity, is_write: false },
        AliasEntry { key: "48/0/Smoke", attribute: "smoke", transform: Transform::Identity, is_write: false },
        AliasEntry { key: "48/0/CO", attribute: "co", transform: Transform::Identity, is_write: false },
        AliasEntry { key: "48/0/CO2", attribute: "co2_alarm", transform: Transform::Identity, is_write: false },
        AliasEntry { key: "48/0/Heat", attribute: "heat_alarm", transform: Transform::Identity, is_write: false },
        AliasEntry { key: "48/0/Freeze", attribute: "freeze", transform: Transform::Identity, is_write: false },
        AliasEntry { key: "48/0/Tamper", attribute: "tamper", transform: Transform::Identity, is_write: false },
        AliasEntry { key: "48/0/Tilt", attribute: "tilt", transform: Transform::Identity, is_write: false },
        AliasEntry { key: "48/0/Glass Break", attribute: "glass_break", transform: Transform::Identity, is_write: false },
        AliasEntry { key: "48/0/Any", attribute: "sensor_active", transform: Transform::Identity, is_write: false },
        AliasEntry { key: "37/0/currentValue", attribute: "on", transform: Transform::Identity, is_write: false },
        AliasEntry { key: "37/0/targetValue", attribute: "on", transform: Transform::Identity, is_write: true },
        AliasEntry { key: "38/0/currentValue", attribute: "brightness", transform: Transform::Identity, is_write: false },
        AliasEntry { key: "38/0/targetValue", attribute: "brightness", transform: Transform::Identity, is_write: true },
        AliasEntry { key: "49/0/Air temperature", attribute: "temperature", transform: Transform::Identity, is_write: false },
        AliasEntry { key: "49/0/Humidity", attribute: "humidity", transform: Transform::Identity, is_write: false },
        AliasEntry { key: "49/0/Luminance", attribute: "illuminance", transform: Transform::Identity, is_write: false },
        AliasEntry { key: "49/0/Ultraviolet", attribute: "uv_index", transform: Transform::Identity, is_write: false },
        AliasEntry { key: "49/0/CO2 level", attribute: "co2_ppm", transform: Transform::Identity, is_write: false },
        AliasEntry { key: "49/0/Atmospheric pressure", attribute: "pressure", transform: Transform::Identity, is_write: false },
        AliasEntry { key: "50/0/value/65537", attribute: "power_w", transform: Transform::Identity, is_write: false },
        AliasEntry { key: "50/0/value/65538", attribute: "energy_kwh", transform: Transform::Identity, is_write: false },
        AliasEntry { key: "50/0/value/65539", attribute: "voltage", transform: Transform::Identity, is_write: false },
        AliasEntry { key: "50/0/value/65540", attribute: "current_a", transform: Transform::Identity, is_write: false },
        // Gas (meter type 2) and water (meter type 3): cubic metres consumed.
        AliasEntry { key: "50/0/value/131073", attribute: "gas_m3", transform: Transform::Identity, is_write: false },
        AliasEntry { key: "50/0/value/196609", attribute: "water_m3", transform: Transform::Identity, is_write: false },
        AliasEntry { key: "128/0/level", attribute: "battery", transform: Transform::Identity, is_write: false },
        AliasEntry { key: "128/0/isLow", attribute: "battery_low", transform: Transform::Identity, is_write: false },
        AliasEntry { key: "98/0/currentMode", attribute: "locked", transform: Transform::NonzeroBool, is_write: false },
        AliasEntry { key: "98/0/targetMode", attribute: "locked", transform: Transform::NonzeroBool, is_write: true },
        AliasEntry { key: "98/0/boltStatus", attribute: "bolt_status", transform: Transform::Identity, is_write: false },
        AliasEntry { key: "98/0/latchStatus", attribute: "latch_status", transform: Transform::Identity, is_write: false },
        AliasEntry { key: "98/0/doorStatus", attribute: "door_status", transform: Transform::Identity, is_write: false },
        AliasEntry { key: "98/0/operationType", attribute: "lock_operation_type", transform: Transform::Identity, is_write: true },
        AliasEntry { key: "98/0/lockTimeoutConfiguration", attribute: "lock_timeout_secs", transform: Transform::Identity, is_write: true },
        AliasEntry { key: "98/0/autoRelockTime", attribute: "lock_auto_relock_secs", transform: Transform::Identity, is_write: true },
        AliasEntry { key: "102/0/currentValue", attribute: "position", transform: Transform::Identity, is_write: false },
        AliasEntry { key: "102/0/targetValue", attribute: "position", transform: Transform::Identity, is_write: true },
        AliasEntry { key: "51/0/currentColor", attribute: "color_rgb", transform: Transform::Identity, is_write: false },
        AliasEntry { key: "51/0/targetColor", attribute: "color_rgb", transform: Transform::Identity, is_write: true },
        AliasEntry { key: "67/1/value", attribute: "target_temp", transform: Transform::Identity, is_write: true },
        AliasEntry { key: "64/0/mode", attribute: "mode", transform: Transform::ModeMap, is_write: true },
        AliasEntry { key: "66/0/state", attribute: "hvac_action", transform: Transform::Identity, is_write: false },
        AliasEntry { key: "113/0/Access Control/Door state", attribute: "contact_open", transform: Transform::AccessControlDoorState, is_write: false },
        AliasEntry { key: "113/0/Access Control/Opening state", attribute: "contact_open", transform: Transform::NonzeroBool, is_write: false },
        AliasEntry { key: "113/0/Home Security/Motion sensor status", attribute: "motion", transform: Transform::NonzeroBool, is_write: false },
        AliasEntry { key: "113/0/Home Security/Tampering, Product cover removed", attribute: "tamper", transform: Transform::NonzeroBool, is_write: false },
        AliasEntry { key: "113/0/Home Security/Tampering, invalid code", attribute: "tamper", transform: Transform::NonzeroBool, is_write: false },
        AliasEntry { key: "113/0/Smoke Alarm/Smoke sensor status", attribute: "smoke", transform: Transform::NonzeroBool, is_write: false },
        AliasEntry { key: "113/0/CO Alarm/CO sensor status", attribute: "co", transform: Transform::NonzeroBool, is_write: false },
        AliasEntry { key: "113/0/Water Alarm/Sensor status", attribute: "water_detected", transform: Transform::NonzeroBool, is_write: false },
    ];
    r
}

// ---------------------------------------------------------------------------
// Write target
// ---------------------------------------------------------------------------

/// Where a HomeCore attribute is written on the Z-Wave side.
pub struct WriteTarget {
    pub command_class: u32,
    pub endpoint: u32,
    pub property: String,
    pub transform: Transform,
}

/// The view of a [`WriteTarget`].
pub struct WriteTargetView {
    pub command_class: u32,
    pub endpoint: u32,
    pub property: Seq<char>,
    pub transform: Transform,
}

impl View for WriteTarget {
    type V = WriteTargetView;

    open spec fn view(&self) -> WriteTargetView {
        WriteTargetView {
            command_class: self.command_class,
            endpoint: self.endpoint,
            property: self.property@,
            transform: self.transform,
        }
    }
}

/// The write target that an alias key names: the key split at `/` into at
/// most four parts (as `splitn(4, '/')` does); with at least three parts,
/// the command class and endpoint are the first two parsed as `u32` (0 where
/// that fails) and the property is the third.
pub open spec fn write_target_of(key: Seq<char>, transform: Transform) -> Option<WriteTargetView> {
    match split_once_spec(key, '/') {
        Some((cc_text, rest)) => match split_once_spec(rest, '/') {
            Some((ep_text, rest2)) => {
                let property = match split_once_spec(rest2, '/') {
                    Some((p, _)) => p,
                    None => rest2,
                };
                Some(
                    WriteTargetView {
                        command_class: match parse_u32_spec(cc_text) {
                            Some(n) => n,
                            None => 0,
                        },
                        endpoint: match parse_u32_spec(ep_text) {
                            Some(n) => n,
                            None => 0,
                        },
                        property,
                        transform,
                    },
                )
            },
            None => None,
        },
        None => None,
    }
}

fn write_target_from_key(key: &str, transform: Transform) -> (r: Option<WriteTarget>)
    ensures
        match write_target_of(key@, transform) {
            Some(t) => r matches Some(x) && x@ == t,
            None => r is None,
        },
{
    match split_once(key, '/') {
        Some((cc_text, rest)) => match split_once(rest, '/') {
            Some((ep_text, rest2)) => {
                let property = match split_once(rest2, '/') {
                    Some((p, _)) => owned(p),
                    None => owned(rest2),
                };
                let command_class = match parse_u32(cc_text) {
                    Some(n) => n,
                    None => 0,
                };
                let endpoint = match parse_u32(ep_text) {
                    Some(n) => n,
                    None => 0,
                };
                Some(WriteTarget { command_class, endpoint, property, transform })
            },
            None => None,
        },
        None => None,
    }
}

// ---------------------------------------------------------------------------
// Translator
// ---------------------------------------------------------------------------

/// The attribute and transform that an alias key translates to.
pub struct ForwardTarget {
    pub attribute: String,
    pub transform: Transform,
}

impl View for ForwardTarget {
    type V = (Seq<char>, Transform);

    open spec fn view(&self) -> (Seq<char>, Transform) {
        (self.attribute@, self.transform)
    }
}

/// The forward map of a table: each key to the attribute and transform of
/// its first entry.
pub open spec fn forward_of(table: Seq<AliasSpec>) -> Map<Seq<char>, (Seq<char>, Transform)>
    decreases table.len(),
{
    if table.len() == 0 {
        Map::empty()
    } else {
        let m = forward_of(table.drop_last());
        let e = table.last();
        if m.contains_key(e.key) {
            m
        } else {
            m.insert(e.key, (e.attribute, e.transform))
        }
    }
}

/// The reverse map of a table: each attribute of a write entry to the write
/// target of its last such entry.
pub open spec fn reverse_of(table: Seq<AliasSpec>) -> Map<Seq<char>, WriteTargetView>
    decreases table.len(),
{
    if table.len() == 0 {
        Map::empty()
    } else {
        let m = reverse_of(table.drop_last());
        let e = table.last();
        if e.is_write {
            match write_target_of(e.key, e.transform) {
                Some(t) => m.insert(e.attribute, t),
                None => m,
            }
        } else {
            m
        }
    }
}

/// A key is in the forward map of a table exactly where an entry holds
/// it, and maps to the attribute and transform of the first such entry.
pub proof fn lemma_forward_of(table: Seq<AliasSpec>, key: Seq<char>)
    ensures
        forward_of(table).contains_key(key) <==> exists|i: int| 0 <= i < table.len() && #[trigger] table[i].key == key,
        forall|i: int|
            0 <= i < table.len() && #[trigger] table[i].key == key && (forall|j: int| 0 <= j < i ==> table[j].key != key)
                ==> forward_of(table)[key] == (table[i].attribute, table[i].transform),
    decreases table.len(),
{
    if table.len() > 0 {
        let p = table.drop_last();
        lemma_forward_of(p, key);
        assert forall|i: int| 0 <= i < p.len() implies #[trigger] p[i] == table[i] by {}
        if exists|i: int| 0 <= i < table.len() && #[trigger] table[i].key == key {
            let i = choose|i: int| 0 <= i < table.len() && #[trigger] table[i].key == key;
            if i < p.len() {
                assert(p[i].key == key);
            }
        }
        if forward_of(p).contains_key(key) {
            let i = choose|i: int| 0 <= i < p.len() && #[trigger] p[i].key == key;
            assert(table[i].key == key);
        }
        assert forall|i: int|
            0 <= i < table.len() && #[trigger] table[i].key == key && (forall|j: int| 0 <= j < i ==> table[j].key != key)
                implies forward_of(table)[key] == (table[i].attribute, table[i].transform) by {
            if i < p.len() {
                assert(p[i].key == key);
                assert forall|j: int| 0 <= j < i implies p[j].key != key by {
                    assert(table[j] == p[j]);
                }
            } else {
                if forward_of(p).contains_key(key) {
                    let k = choose|k: int| 0 <= k < p.len() && #[trigger] p[k].key == key;
                    assert(table[k].key == key);
                }
            }
        }
    }
}

/// Entry `i` of `table` gives attribute `attr` a write target.
pub open spec fn is_write_source(table: Seq<AliasSpec>, i: int, attr: Seq<char>) -> bool {
    &&& 0 <= i < table.len()
    &&& table[i].is_write
    &&& table[i].attribute == attr
    &&& write_target_of(table[i].key, table[i].transform) is Some
}

/// An attribute is in the reverse map of a table exactly where a write
/// entry gives it a write target, and maps to that of the last such entry.
pub proof fn lemma_reverse_of(table: Seq<AliasSpec>, attr: Seq<char>)
    ensures
        reverse_of(table).contains_key(attr) <==> exists|i: int| #[trigger] is_write_source(table, i, attr),
        forall|i: int|
            #[trigger] is_write_source(table, i, attr) && (forall|j: int| i < j < table.len() ==> !is_write_source(table, j, attr))
                ==> reverse_of(table)[attr] == write_target_of(table[i].key, table[i].transform)->0,
    decreases table.len(),
{
    if table.len() > 0 {
        let p = table.drop_last();
        let last = table.len() - 1;
        lemma_reverse_of(p, attr);
        assert forall|i: int| 0 <= i < p.len() implies #[trigger] is_write_source(p, i, attr) == is_write_source(table, i, attr) by {
            assert(p[i] == table[i]);
        }
        if is_write_source(table, last, attr) {
            assert(reverse_of(table).contains_key(attr));
        } else {
            assert(reverse_of(table).contains_key(attr) == reverse_of(p).contains_key(attr));
        }
        if exists|i: int| #[trigger] is_write_source(table, i, attr) {
            let i = choose|i: int| #[trigger] is_write_source(table, i, attr);
            if i < last {
                assert(is_write_source(p, i, attr));
            }
        }
        if reverse_of(p).contains_key(attr) {
            let i = choose|i: int| #[trigger] is_write_source(p, i, attr);
            assert(is_write_source(table, i, attr));
        }
        assert forall|i: int|
            #[trigger] is_write_source(table, i, attr) && (forall|j: int| i < j < table.len() ==> !is_write_source(table, j, attr))
                implies reverse_of(table)[attr] == write_target_of(table[i].key, table[i].transform)->0 by {
            if i < last {
                assert(!is_write_source(table, last, attr));
                assert(is_write_source(p, i, attr));
                assert forall|j: int| i < j < p.len() implies !is_write_source(p, j, attr) by {
                    assert(!is_write_source(table, j, attr));
                }
            }
        }
    }
}

/// The write target read from the alias key of a ValueID is that ValueID,
/// where its property holds no `/`.
pub proof fn lemma_write_target_of_alias_key(cc: u32, endpoint: u32, property: Seq<char>, transform: Transform)
    requires
        forall|j: int| 0 <= j < property.len() ==> property[j] != '/',
    ensures
        write_target_of(alias_key_spec(cc, endpoint, property, None), transform) == Some(
            WriteTargetView { command_class: cc, endpoint, property, transform },
        ),
{
    reveal_strlit("/");
    let a = nat_text(cc as nat);
    let b = nat_text(endpoint as nat);
    lemma_nat_text_digits(cc as nat);
    lemma_nat_text_digits(endpoint as nat);
    lemma_parse_nat_text(cc);
    lemma_parse_nat_text(endpoint);
    let key = alias_key_spec(cc, endpoint, property, None);
    assert(key =~= a + seq!['/'] + b + seq!['/'] + property);
    assert forall|j: int| 0 <= j < a.len() implies key[j] != '/' by {
        assert(is_digit(a[j]));
    }
    lemma_index_of_at(key, '/', a.len() as int);
    let rest = key.skip(a.len() as int + 1);
    assert(key.take(a.len() as int) =~= a);
    assert(rest =~= b + seq!['/'] + property);
    assert forall|j: int| 0 <= j < b.len() implies rest[j] != '/' by {
        assert(is_digit(b[j]));
    }
    lemma_index_of_at(rest, '/', b.len() as int);
    let rest2 = rest.skip(b.len() as int + 1);
    assert(rest.take(b.len() as int) =~= b);
    assert(rest2 =~= property);
    lemma_index_of_none(rest2, '/');
}

/// A write entry that is the first with its key and the last write entry
/// for its attribute, and whose key is the alias key of a ValueID with no
/// `/` in its property: its attribute is written to that ValueID, whose
/// reports translate back to the attribute with the same transform.
pub proof fn lemma_entry_reads_back(table: Seq<AliasSpec>, w: int, cc: u32, endpoint: u32, property: Seq<char>)
    requires
        0 <= w < table.len(),
        table[w].is_write,
        table[w].key == alias_key_spec(cc, endpoint, property, None),
        forall|j: int| 0 <= j < property.len() ==> property[j] != '/',
        forall|j: int| 0 <= j < w ==> table[j].key != table[w].key,
        forall|j: int| w < j < table.len() ==> !(table[j].is_write && table[j].attribute == table[w].attribute),
    ensures
        reverse_of(table).contains_key(table[w].attribute),
        reverse_of(table)[table[w].attribute] == (WriteTargetView {
            command_class: cc,
            endpoint,
            property,
            transform: table[w].transform,
        }),
        forward_of(table).contains_key(table[w].key),
        forward_of(table)[table[w].key] == (table[w].attribute, table[w].transform),
{
    lemma_write_target_of_alias_key(cc, endpoint, property, table[w].transform);
    lemma_forward_of(table, table[w].key);
    lemma_reverse_of(table, table[w].attribute);
    assert(is_write_source(table, w, table[w].attribute));
    assert forall|j: int| w < j < table.len() implies !is_write_source(table, j, table[w].attribute) by {}
}

/// Every attribute that HomeCore can write is written to a ValueID whose
/// reports translate back to that same attribute, with the same transform:
/// the value written and the value reported are the same attribute.
pub proof fn lemma_write_targets_read_back()
    ensures
        forall|attr: Seq<char>| #[trigger] reverse_of(alias_table_spec()).contains_key(attr) ==> {
            let target = reverse_of(alias_table_spec())[attr];
            let key = alias_key_spec(target.command_class, target.endpoint, target.property, None);
            &&& forward_of(alias_table_spec()).contains_key(key)
            &&& forward_of(alias_table_spec())[key] == (attr, target.transform)
        },
{
    let t = alias_table_spec();
    reveal_strlit("48/0/Motion");
    reveal_strlit("48/0/Door/Window");
    reveal_strlit("48/0/Water");
    reveal_strlit("48/0/Smoke");
    reveal_strlit("48/0/CO");
    reveal_strlit("48/0/CO2");
    reveal_strlit("48/0/Heat");
    reveal_strlit("48/0/Freeze");
    reveal_strlit("48/0/Tamper");
    reveal_strlit("48/0/Tilt");
    reveal_strlit("48/0/Glass Break");
    reveal_strlit("48/0/Any");
    reveal_strlit("37/0/currentValue");
    reveal_strlit("37/0/targetValue");
    reveal_strlit("38/0/currentValue");
    reveal_strlit("38/0/targetValue");
    reveal_strlit("49/0/Air temperature");
    reveal_strlit("49/0/Humidity");
    reveal_strlit("49/0/Luminance");
    reveal_strlit("49/0/Ultraviolet");
    reveal_strlit("49/0/CO2 level");
    reveal_strlit("49/0/Atmospheric pressure");
    reveal_strlit("50/0/value/65537");
    reveal_strlit("50/0/value/65538");
    reveal_strlit("50/0/value/65539");
    reveal_strlit("50/0/value/65540");
    reveal_strlit("50/0/value/131073");
    reveal_strlit("50/0/value/196609");
    reveal_strlit("128/0/level");
    reveal_strlit("128/0/isLow");
    reveal_strlit("98/0/currentMode");
    reveal_strlit("98/0/targetMode");
    reveal_strlit("98/0/boltStatus");
    reveal_strlit("98/0/latchStatus");
    reveal_strlit("98/0/doorStatus");
    reveal_strlit("98/0/operationType");
    reveal_strlit("98/0/lockTimeoutConfiguration");
    reveal_strlit("98/0/autoRelockTime");
    reveal_strlit("102/0/currentValue");
    reveal_strlit("102/0/targetValue");
    reveal_strlit("51/0/currentColor");
    reveal_strlit("51/0/targetColor");
    reveal_strlit("67/1/value");
    reveal_strlit("64/0/mode");
    reveal_strlit("on");
    reveal_strlit("brightness");
    reveal_strlit("locked");
    reveal_strlit("lock_operation_type");
    reveal_strlit("lock_timeout_secs");
    reveal_strlit("lock_auto_relock_secs");
    reveal_strlit("position");
    reveal_strlit("color_rgb");
    reveal_strlit("target_temp");
    reveal_strlit("mode");
    reveal_strlit("/");
    assert(nat_text(0) =~= seq!['0']) by { reveal_with_fuel(nat_text, 4); }
    assert(nat_text(1) =~= seq!['1']) by { reveal_with_fuel(nat_text, 4); }
    assert(nat_text(37) =~= seq!['3', '7']) by { reveal_with_fuel(nat_text, 4); }
    assert(nat_text(38) =~= seq!['3', '8']) by { reveal_with_fuel(nat_text, 4); }
    assert(nat_text(51) =~= seq!['5', '1']) by { reveal_with_fuel(nat_text, 4); }
    assert(nat_text(64) =~= seq!['6', '4']) by { reveal_with_fuel(nat_text, 4); }
    assert(nat_text(67) =~= seq!['6', '7']) by { reveal_with_fuel(nat_text, 4); }
    assert(nat_text(98) =~= seq!['9', '8']) by { reveal_with_fuel(nat_text, 4); }
    assert(nat_text(102) =~= seq!['1', '0', '2']) by { reveal_with_fuel(nat_text, 4); }
    // on → 37/0/targetValue
    assert(t[13].key =~= alias_key_spec(37, 0, t[13].key.skip(5), None));
    assert forall|j: int| 0 <= j < t[13].key.skip(5).len() implies t[13].key.skip(5)[j] != '/' by {}
    assert forall|j: int| 0 <= j < 13 implies #[trigger] t[j].key != t[13].key by {
        if j == 1 { assert(t[j].key[0] != t[13].key[0]); }
        if j == 10 { assert(t[j].key[0] != t[13].key[0]); }
    }
    assert forall|j: int| 13 < j < t.len() implies !(#[trigger] t[j].is_write && t[j].attribute == t[13].attribute) by {
        if j == 15 { assert(t[j].attribute.len() != t[13].attribute.len()); }
        if j == 31 { assert(t[j].attribute.len() != t[13].attribute.len()); }
        if j == 35 { assert(t[j].attribute.len() != t[13].attribute.len()); }
        if j == 36 { assert(t[j].attribute.len() != t[13].attribute.len()); }
        if j == 37 { assert(t[j].attribute.len() != t[13].attribute.len()); }
        if j == 39 { assert(t[j].attribute.len() != t[13].attribute.len()); }
        if j == 41 { assert(t[j].attribute.len() != t[13].attribute.len()); }
        if j == 42 { assert(t[j].attribute.len() != t[13].attribute.len()); }
        if j == 43 { assert(t[j].attribute.len() != t[13].attribute.len()); }
    }
    lemma_entry_reads_back(t, 13, 37, 0, t[13].key.skip(5));
    // brightness → 38/0/targetValue
    assert(t[15].key =~= alias_key_spec(38, 0, t[15].key.skip(5), None));
    assert forall|j: int| 0 <= j < t[15].key.skip(5).len() implies t[15].key.skip(5)[j] != '/' by {}
    assert forall|j: int| 0 <= j < 15 implies #[trigger] t[j].key != t[15].key by {
        if j == 1 { assert(t[j].key[0] != t[15].key[0]); }
        if j == 10 { assert(t[j].key[0] != t[15].key[0]); }
        if j == 13 { assert(t[j].key[1] != t[15].key[1]); }
    }
    assert forall|j: int| 15 < j < t.len() implies !(#[trigger] t[j].is_write && t[j].attribute == t[15].attribute) by {
        if j == 31 { assert(t[j].attribute.len() != t[15].attribute.len()); }
        if j == 35 { assert(t[j].attribute.len() != t[15].attribute.len()); }
        if j == 36 { assert(t[j].attribute.len() != t[15].attribute.len()); }
        if j == 37 { assert(t[j].attribute.len() != t[15].attribute.len()); }
        if j == 39 { assert(t[j].attribute.len() != t[15].attribute.len()); }
        if j == 41 { assert(t[j].attribute.len() != t[15].attribute.len()); }
        if j == 42 { assert(t[j].attribute.len() != t[15].attribute.len()); }
        if j == 43 { assert(t[j].attribute.len() != t[15].attribute.len()); }
    }
    lemma_entry_reads_back(t, 15, 38, 0, t[15].key.skip(5));
    // locked → 98/0/targetMode
    assert(t[31].key =~= alias_key_spec(98, 0, t[31].key.skip(5), None));
    assert forall|j: int| 0 <= j < t[31].key.skip(5).len() implies t[31].key.skip(5)[j] != '/' by {}
    assert forall|j: int| 0 <= j < 31 implies #[trigger] t[j].key != t[31].key by {}
    assert forall|j: int| 31 < j < t.len() implies !(#[trigger] t[j].is_write && t[j].attribute == t[31].attribute) by {
        if j == 35 { assert(t[j].attribute.len() != t[31].attribute.len()); }
        if j == 36 { assert(t[j].attribute.len() != t[31].attribute.len()); }
        if j == 37 { assert(t[j].attribute.len() != t[31].attribute.len()); }
        if j == 39 { assert(t[j].attribute.len() != t[31].attribute.len()); }
        if j == 41 { assert(t[j].attribute.len() != t[31].attribute.len()); }
        if j == 42 { assert(t[j].attribute.len() != t[31].attribute.len()); }
        if j == 43 { assert(t[j].attribute.len() != t[31].attribute.len()); }
    }
    lemma_entry_reads_back(t, 31, 98, 0, t[31].key.skip(5));
    // lock_operation_type → 98/0/operationType
    assert(t[35].key =~= alias_key_spec(98, 0, t[35].key.skip(5), None));
    assert forall|j: int| 0 <= j < t[35].key.skip(5).len() implies t[35].key.skip(5)[j] != '/' by {}
    assert forall|j: int| 0 <= j < 35 implies #[trigger] t[j].key != t[35].key by {}
    assert forall|j: int| 35 < j < t.len() implies !(#[trigger] t[j].is_write && t[j].attribute == t[35].attribute) by {
        if j == 36 { assert(t[j].attribute.len() != t[35].attribute.len()); }
        if j == 37 { assert(t[j].attribute.len() != t[35].attribute.len()); }
        if j == 39 { assert(t[j].attribute.len() != t[35].attribute.len()); }
        if j == 41 { assert(t[j].attribute.len() != t[35].attribute.len()); }
        if j == 42 { assert(t[j].attribute.len() != t[35].attribute.len()); }
        if j == 43 { assert(t[j].attribute.len() != t[35].attribute.len()); }
    }
    lemma_entry_reads_back(t, 35, 98, 0, t[35].key.skip(5));
    // lock_timeout_secs → 98/0/lockTimeoutConfiguration
    assert(t[36].key =~= alias_key_spec(98, 0, t[36].key.skip(5), None));
    assert forall|j: int| 0 <= j < t[36].key.skip(5).len() implies t[36].key.skip(5)[j] != '/' by {}
    assert forall|j: int| 0 <= j < 36 implies #[trigger] t[j].key != t[36].key by {}
    assert forall|j: int| 36 < j < t.len() implies !(#[trigger] t[j].is_write && t[j].attribute == t[36].attribute) by {
        if j == 37 { assert(t[j].attribute.len() != t[36].attribute.len()); }
        if j == 39 { assert(t[j].attribute.len() != t[36].attribute.len()); }
        if j == 41 { assert(t[j].attribute.len() != t[36].attribute.len()); }
        if j == 42 { assert(t[j].attribute.len() != t[36].attribute.len()); }
        if j == 43 { assert(t[j].attribute.len() != t[36].attribute.len()); }
    }
    lemma_entry_reads_back(t, 36, 98, 0, t[36].key.skip(5));
    // lock_auto_relock_secs → 98/0/autoRelockTime
    assert(t[37].key =~= alias_key_spec(98, 0, t[37].key.skip(5), None));
    assert forall|j: int| 0 <= j < t[37].key.skip(5).len() implies t[37].key.skip(5)[j] != '/' by {}
    assert forall|j: int| 0 <= j < 37 implies #[trigger] t[j].key != t[37].key by {}
    assert forall|j: int| 37 < j < t.len() implies !(#[trigger] t[j].is_write && t[j].attribute == t[37].attribute) by {
        if j == 39 { assert(t[j].attribute.len() != t[37].attribute.len()); }
        if j == 41 { assert(t[j].attribute.len() != t[37].attribute.len()); }
        if j == 42 { assert(t[j].attribute.len() != t[37].attribute.len()); }
        if j == 43 { assert(t[j].attribute.len() != t[37].attribute.len()); }
    }
    lemma_entry_reads_back(t, 37, 98, 0, t[37].key.skip(5));
    // position → 102/0/targetValue
    assert(t[39].key =~= alias_key_spec(102, 0, t[39].key.skip(6), None));
    assert forall|j: int| 0 <= j < t[39].key.skip(6).len() implies t[39].key.skip(6)[j] != '/' by {}
    assert forall|j: int| 0 <= j < 39 implies #[trigger] t[j].key != t[39].key by {
        if j == 12 { assert(t[j].key[0] != t[39].key[0]); }
        if j == 14 { assert(t[j].key[0] != t[39].key[0]); }
        if j == 26 { assert(t[j].key[0] != t[39].key[0]); }
        if j == 27 { assert(t[j].key[0] != t[39].key[0]); }
    }
    assert forall|j: int| 39 < j < t.len() implies !(#[trigger] t[j].is_write && t[j].attribute == t[39].attribute) by {
        if j == 41 { assert(t[j].attribute.len() != t[39].attribute.len()); }
        if j == 42 { assert(t[j].attribute.len() != t[39].attribute.len()); }
        if j == 43 { assert(t[j].attribute.len() != t[39].attribute.len()); }
    }
    lemma_entry_reads_back(t, 39, 102, 0, t[39].key.skip(6));
    // color_rgb → 51/0/targetColor
    assert(t[41].key =~= alias_key_spec(51, 0, t[41].key.skip(5), None));
    assert forall|j: int| 0 <= j < t[41].key.skip(5).len() implies t[41].key.skip(5)[j] != '/' by {}
    assert forall|j: int| 0 <= j < 41 implies #[trigger] t[j].key != t[41].key by {
        if j == 1 { assert(t[j].key[0] != t[41].key[0]); }
        if j == 10 { assert(t[j].key[0] != t[41].key[0]); }
        if j == 13 { assert(t[j].key[0] != t[41].key[0]); }
        if j == 15 { assert(t[j].key[0] != t[41].key[0]); }
        if j == 19 { assert(t[j].key[0] != t[41].key[0]); }
        if j == 22 { assert(t[j].key[1] != t[41].key[1]); }
        if j == 23 { assert(t[j].key[1] != t[41].key[1]); }
        if j == 24 { assert(t[j].key[1] != t[41].key[1]); }
        if j == 25 { assert(t[j].key[1] != t[41].key[1]); }
        if j == 30 { assert(t[j].key[0] != t[41].key[0]); }
        if j == 33 { assert(t[j].key[0] != t[41].key[0]); }
    }
    assert forall|j: int| 41 < j < t.len() implies !(#[trigger] t[j].is_write && t[j].attribute == t[41].attribute) by {
        if j == 42 { assert(t[j].attribute.len() != t[41].attribute.len()); }
        if j == 43 { assert(t[j].attribute.len() != t[41].attribute.len()); }
    }
    lemma_entry_reads_back(t, 41, 51, 0, t[41].key.skip(5));
    // target_temp → 67/1/value
    assert(t[42].key =~= alias_key_spec(67, 1, t[42].key.skip(5), None));
    assert forall|j: int| 0 <= j < t[42].key.skip(5).len() implies t[42].key.skip(5)[j] != '/' by {}
    assert forall|j: int| 0 <= j < 42 implies #[trigger] t[j].key != t[42].key by {
        if j == 2 { assert(t[j].key[0] != t[42].key[0]); }
        if j == 3 { assert(t[j].key[0] != t[42].key[0]); }
    }
    assert forall|j: int| 42 < j < t.len() implies !(#[trigger] t[j].is_write && t[j].attribute == t[42].attribute) by {
        if j == 43 { assert(t[j].attribute.len() != t[42].attribute.len()); }
    }
    lemma_entry_reads_back(t, 42, 67, 1, t[42].key.skip(5));
    // mode → 64/0/mode
    assert(t[43].key =~= alias_key_spec(64, 0, t[43].key.skip(5), None));
    assert forall|j: int| 0 <= j < t[43].key.skip(5).len() implies t[43].key.skip(5)[j] != '/' by {}
    assert forall|j: int| 0 <= j < 43 implies #[trigger] t[j].key != t[43].key by {
        if j == 6 { assert(t[j].key[0] != t[43].key[0]); }
        if j == 9 { assert(t[j].key[0] != t[43].key[0]); }
    }
    assert forall|j: int| 43 < j < t.len() implies !(#[trigger] t[j].is_write && t[j].attribute == t[43].attribute) by {
    }
    lemma_entry_reads_back(t, 43, 64, 0, t[43].key.skip(5));
    assert forall|attr: Seq<char>| #[trigger] reverse_of(t).contains_key(attr) implies {
        let target = reverse_of(t)[attr];
        let key = alias_key_spec(target.command_class, target.endpoint, target.property, None);
        &&& forward_of(t).contains_key(key)
        &&& forward_of(t)[key] == (attr, target.transform)
    } by {
        lemma_reverse_of(t, attr);
        let i = choose|i: int| #[trigger] is_write_source(t, i, attr);
        assert(i == 13 || i == 15 || i == 31 || i == 35 || i == 36 || i == 37 || i == 39 || i == 41 || i == 42 || i == 43);
    }
}

/// Where a key is in the forward map of a table, some entry holds it and
/// gives its attribute and transform.
pub proof fn lemma_forward_of_source(table: Seq<AliasSpec>, key: Seq<char>)
    requires
        forward_of(table).contains_key(key),
    ensures
        exists|i: int|
            0 <= i < table.len() && #[trigger] table[i].key == key && forward_of(table)[key] == (
                table[i].attribute,
                table[i].transform,
            ),
    decreases table.len(),
{
    let p = table.drop_last();
    if forward_of(p).contains_key(key) {
        lemma_forward_of_source(p, key);
        let i = choose|i: int| 0 <= i < p.len() && #[trigger] p[i].key == key && forward_of(p)[key] == (
            p[i].attribute,
            p[i].transform,
        );
        assert(table[i] == p[i]);
    } else {
        assert(table[table.len() - 1].key == key);
    }
}

/// The text of command class 113.
proof fn lemma_nat_text_113()
    ensures
        nat_text(113) =~= seq!['1', '1', '3'],
{
    reveal_with_fuel(nat_text, 4);
}

/// Every report of command class 113 (Notification) that the alias table
/// knows translates to a boolean, whatever its raw value.
pub proof fn lemma_notifications_translate_to_booleans(
    endpoint: u32,
    property: Seq<char>,
    property_key: Option<Seq<char>>,
    raw: JsonView,
)
    requires
        forward_of(alias_table_spec()).contains_key(alias_key_spec(113, endpoint, property, property_key)),
    ensures
        apply_spec(forward_of(alias_table_spec())[alias_key_spec(113, endpoint, property, property_key)].1, raw) is Bool,
{
    let t = alias_table_spec();
    let key = alias_key_spec(113, endpoint, property, property_key);
    reveal_strlit("48/0/Motion");
    reveal_strlit("48/0/Door/Window");
    reveal_strlit("48/0/Water");
    reveal_strlit("48/0/Smoke");
    reveal_strlit("48/0/CO");
    reveal_strlit("48/0/CO2");
    reveal_strlit("48/0/Heat");
    reveal_strlit("48/0/Freeze");
    reveal_strlit("48/0/Tamper");
    reveal_strlit("48/0/Tilt");
    reveal_strlit("48/0/Glass Break");
    reveal_strlit("48/0/Any");
    reveal_strlit("37/0/currentValue");
    reveal_strlit("37/0/targetValue");
    reveal_strlit("38/0/currentValue");
    reveal_strlit("38/0/targetValue");
    reveal_strlit("49/0/Air temperature");
    reveal_strlit("49/0/Humidity");
    reveal_strlit("49/0/Luminance");
    reveal_strlit("49/0/Ultraviolet");
    reveal_strlit("49/0/CO2 level");
    reveal_strlit("49/0/Atmospheric pressure");
    reveal_strlit("50/0/value/65537");
    reveal_strlit("50/0/value/65538");
    reveal_strlit("50/0/value/65539");
    reveal_strlit("50/0/value/65540");
    reveal_strlit("50/0/value/131073");
    reveal_strlit("50/0/value/196609");
    reveal_strlit("128/0/level");
    reveal_strlit("128/0/isLow");
    reveal_strlit("98/0/currentMode");
    reveal_strlit("98/0/targetMode");
    reveal_strlit("98/0/boltStatus");
    reveal_strlit("98/0/latchStatus");
    reveal_strlit("98/0/doorStatus");
    reveal_strlit("98/0/operationType");
    reveal_strlit("98/0/lockTimeoutConfiguration");
    reveal_strlit("98/0/autoRelockTime");
    reveal_strlit("102/0/currentValue");
    reveal_strlit("102/0/targetValue");
    reveal_strlit("51/0/currentColor");
    reveal_strlit("51/0/targetColor");
    reveal_strlit("67/1/value");
    reveal_strlit("64/0/mode");
    reveal_strlit("66/0/state");
    reveal_strlit("113/0/Access Control/Door state");
    reveal_strlit("113/0/Access Control/Opening state");
    reveal_strlit("113/0/Home Security/Motion sensor status");
    reveal_strlit("113/0/Home Security/Tampering, Product cover removed");
    reveal_strlit("113/0/Home Security/Tampering, invalid code");
    reveal_strlit("113/0/Smoke Alarm/Smoke sensor status");
    reveal_strlit("113/0/CO Alarm/CO sensor status");
    reveal_strlit("113/0/Water Alarm/Sensor status");
    lemma_nat_text_113();
    assert(key[0] == '1' && key[1] == '1' && key[2] == '3');
    lemma_forward_of_source(t, key);
    let i = choose|i: int| 0 <= i < t.len() && #[trigger] t[i].key == key && forward_of(t)[key] == (
        t[i].attribute,
        t[i].transform,
    );
    assert forall|j: int| 0 <= j < 45 implies #[trigger] t[j].key[0] != '1' || t[j].key[1] != '1' || t[j].key[2] != '3' by {}
    assert(i >= 45);
}

/// A motion notification (command class 113, "Home Security", "Motion
/// sensor status") translates to `motion`: true exactly when the raw state
/// is non-zero (0 is idle; 8 is motion detected).
pub proof fn lemma_motion_notification(raw: JsonView, n: u64)
    ensures
        ({
            let f = forward_of(alias_table_spec());
            let key = alias_key_spec(113, 0, "Home Security"@, Some("Motion sensor status"@));
            &&& f.contains_key(key)
            &&& f[key].0 == "motion"@
            &&& apply_spec(f[key].1, raw) == JsonView::Bool(is_nonzero(raw))
            &&& apply_spec(f[key].1, JsonView::Number(NumberView::PosInt(n))) == JsonView::Bool(n != 0)
        }),
{
    let t = alias_table_spec();
    reveal_strlit("48/0/Motion");
    reveal_strlit("48/0/Door/Window");
    reveal_strlit("48/0/Water");
    reveal_strlit("48/0/Smoke");
    reveal_strlit("48/0/CO");
    reveal_strlit("48/0/CO2");
    reveal_strlit("48/0/Heat");
    reveal_strlit("48/0/Freeze");
    reveal_strlit("48/0/Tamper");
    reveal_strlit("48/0/Tilt");
    reveal_strlit("48/0/Glass Break");
    reveal_strlit("48/0/Any");
    reveal_strlit("37/0/currentValue");
    reveal_strlit("37/0/targetValue");
    reveal_strlit("38/0/currentValue");
    reveal_strlit("38/0/targetValue");
    reveal_strlit("49/0/Air temperature");
    reveal_strlit("49/0/Humidity");
    reveal_strlit("49/0/Luminance");
    reveal_strlit("49/0/Ultraviolet");
    reveal_strlit("49/0/CO2 level");
    reveal_strlit("49/0/Atmospheric pressure");
    reveal_strlit("50/0/value/65537");
    reveal_strlit("50/0/value/65538");
    reveal_strlit("50/0/value/65539");
    reveal_strlit("50/0/value/65540");
    reveal_strlit("50/0/value/131073");
    reveal_strlit("50/0/value/196609");
    reveal_strlit("128/0/level");
    reveal_strlit("128/0/isLow");
    reveal_strlit("98/0/currentMode");
    reveal_strlit("98/0/targetMode");
    reveal_strlit("98/0/boltStatus");
    reveal_strlit("98/0/latchStatus");
    reveal_strlit("98/0/doorStatus");
    reveal_strlit("98/0/operationType");
    reveal_strlit("98/0/lockTimeoutConfiguration");
    reveal_strlit("98/0/autoRelockTime");
    reveal_strlit("102/0/currentValue");
    reveal_strlit("102/0/targetValue");
    reveal_strlit("51/0/currentColor");
    reveal_strlit("51/0/targetColor");
    reveal_strlit("67/1/value");
    reveal_strlit("64/0/mode");
    reveal_strlit("66/0/state");
    reveal_strlit("113/0/Access Control/Door state");
    reveal_strlit("113/0/Access Control/Opening state");
    reveal_strlit("113/0/Home Security/Motion sensor status");
    reveal_strlit("113/0/Home Security/Tampering, Product cover removed");
    reveal_strlit("113/0/Home Security/Tampering, invalid code");
    reveal_strlit("113/0/Smoke Alarm/Smoke sensor status");
    reveal_strlit("113/0/CO Alarm/CO sensor status");
    reveal_strlit("113/0/Water Alarm/Sensor status");
    reveal_strlit("Home Security");
    reveal_strlit("Motion sensor status");
    reveal_strlit("/");
    reveal_strlit("motion");
    lemma_nat_text_113();
    assert(nat_text(0) =~= seq!['0']) by { reveal_with_fuel(nat_text, 2); }
    let key = alias_key_spec(113, 0, "Home Security"@, Some("Motion sensor status"@));
    assert(key =~= t[47].key);
    assert forall|j: int| 0 <= j < 47 implies #[trigger] t[j].key != t[47].key by {

    }
    lemma_forward_of(t, key);
    assert(t[47].key == key);
}

/// A power meter report (command class 50, property `value`, property key
/// 65537) translates to `power_w`, with the raw value as it is.
pub proof fn lemma_power_meter(raw: JsonView)
    ensures
        ({
            let f = forward_of(alias_table_spec());
            let key = alias_key_spec(50, 0, "value"@, property_key_text(JsonView::Number(NumberView::PosInt(65537))));
            &&& f.contains_key(key)
            &&& f[key].0 == "power_w"@
            &&& apply_spec(f[key].1, raw) == raw
        }),
{
    let t = alias_table_spec();
    reveal_strlit("48/0/Motion");
    reveal_strlit("48/0/Door/Window");
    reveal_strlit("48/0/Water");
    reveal_strlit("48/0/Smoke");
    reveal_strlit("48/0/CO");
    reveal_strlit("48/0/CO2");
    reveal_strlit("48/0/Heat");
    reveal_strlit("48/0/Freeze");
    reveal_strlit("48/0/Tamper");
    reveal_strlit("48/0/Tilt");
    reveal_strlit("48/0/Glass Break");
    reveal_strlit("48/0/Any");
    reveal_strlit("37/0/currentValue");
    reveal_strlit("37/0/targetValue");
    reveal_strlit("38/0/currentValue");
    reveal_strlit("38/0/targetValue");
    reveal_strlit("49/0/Air temperature");
    reveal_strlit("49/0/Humidity");
    reveal_strlit("49/0/Luminance");
    reveal_strlit("49/0/Ultraviolet");
    reveal_strlit("49/0/CO2 level");
    reveal_strlit("49/0/Atmospheric pressure");
    reveal_strlit("50/0/value/65537");
    reveal_strlit("50/0/value/65538");
    reveal_strlit("50/0/value/65539");
    reveal_strlit("50/0/value/65540");
    reveal_strlit("50/0/value/131073");
    reveal_strlit("50/0/value/196609");
    reveal_strlit("128/0/level");
    reveal_strlit("128/0/isLow");
    reveal_strlit("98/0/currentMode");
    reveal_strlit("98/0/targetMode");
    reveal_strlit("98/0/boltStatus");
    reveal_strlit("98/0/latchStatus");
    reveal_strlit("98/0/doorStatus");
    reveal_strlit("98/0/operationType");
    reveal_strlit("98/0/lockTimeoutConfiguration");
    reveal_strlit("98/0/autoRelockTime");
    reveal_strlit("102/0/currentValue");
    reveal_strlit("102/0/targetValue");
    reveal_strlit("51/0/currentColor");
    reveal_strlit("51/0/targetColor");
    reveal_strlit("67/1/value");
    reveal_strlit("64/0/mode");
    reveal_strlit("66/0/state");
    reveal_strlit("113/0/Access Control/Door state");
    reveal_strlit("113/0/Access Control/Opening state");
    reveal_strlit("113/0/Home Security/Motion sensor status");
    reveal_strlit("113/0/Home Security/Tampering, Product cover removed");
    reveal_strlit("113/0/Home Security/Tampering, invalid code");
    reveal_strlit("113/0/Smoke Alarm/Smoke sensor status");
    reveal_strlit("113/0/CO Alarm/CO sensor status");
    reveal_strlit("113/0/Water Alarm/Sensor status");
    reveal_strlit("value");
    reveal_strlit("/");
    reveal_strlit("power_w");
    assert(nat_text(50) =~= seq!['5', '0']) by { reveal_with_fuel(nat_text, 3); }
    assert(nat_text(0) =~= seq!['0']) by { reveal_with_fuel(nat_text, 2); }
    assert(nat_text(65537) =~= seq!['6', '5', '5', '3', '7']) by { reveal_with_fuel(nat_text, 6); }
    let key = alias_key_spec(50, 0, "value"@, property_key_text(JsonView::Number(NumberView::PosInt(65537))));
    assert(key =~= t[22].key);
    assert forall|j: int| 0 <= j < 22 implies #[trigger] t[j].key != t[22].key by {
        if j == 1 { assert(t[j].key[0] != t[22].key[0]); }
        if j == 10 { assert(t[j].key[0] != t[22].key[0]); }
        if j == 13 { assert(t[j].key[0] != t[22].key[0]); }
        if j == 15 { assert(t[j].key[0] != t[22].key[0]); }
        if j == 19 { assert(t[j].key[0] != t[22].key[0]); }
    }
    lemma_forward_of(t, key);
    assert(t[22].key == key);
}

/// The thermostat setpoint `target_temp` is written to command class 67,
/// endpoint 1, property `value`, with the value as it is.
pub proof fn lemma_setpoint_write_target()
    ensures
        reverse_of(alias_table_spec()).contains_key("target_temp"@),
        reverse_of(alias_table_spec())["target_temp"@] == (WriteTargetView {
            command_class: 67,
            endpoint: 1,
            property: "value"@,
            transform: Transform::Identity,
        }),
{
    let t = alias_table_spec();
    reveal_strlit("48/0/Motion");
    reveal_strlit("48/0/Door/Window");
    reveal_strlit("48/0/Water");
    reveal_strlit("48/0/Smoke");
    reveal_strlit("48/0/CO");
    reveal_strlit("48/0/CO2");
    reveal_strlit("48/0/Heat");
    reveal_strlit("48/0/Freeze");
    reveal_strlit("48/0/Tamper");
    reveal_strlit("48/0/Tilt");
    reveal_strlit("48/0/Glass Break");
    reveal_strlit("48/0/Any");
    reveal_strlit("37/0/currentValue");
    reveal_strlit("37/0/targetValue");
    reveal_strlit("38/0/currentValue");
    reveal_strlit("38/0/targetValue");
    reveal_strlit("49/0/Air temperature");
    reveal_strlit("49/0/Humidity");
    reveal_strlit("49/0/Luminance");
    reveal_strlit("49/0/Ultraviolet");
    reveal_strlit("49/0/CO2 level");
    reveal_strlit("49/0/Atmospheric pressure");
    reveal_strlit("50/0/value/65537");
    reveal_strlit("50/0/value/65538");
    reveal_strlit("50/0/value/65539");
    reveal_strlit("50/0/value/65540");
    reveal_strlit("50/0/value/131073");
    reveal_strlit("50/0/value/196609");
    reveal_strlit("128/0/level");
    reveal_strlit("128/0/isLow");
    reveal_strlit("98/0/currentMode");
    reveal_strlit("98/0/targetMode");
    reveal_strlit("98/0/boltStatus");
    reveal_strlit("98/0/latchStatus");
    reveal_strlit("98/0/doorStatus");
    reveal_strlit("98/0/operationType");
    reveal_strlit("98/0/lockTimeoutConfiguration");
    reveal_strlit("98/0/autoRelockTime");
    reveal_strlit("102/0/currentValue");
    reveal_strlit("102/0/targetValue");
    reveal_strlit("51/0/currentColor");
    reveal_strlit("51/0/targetColor");
    reveal_strlit("67/1/value");
    reveal_strlit("64/0/mode");
    reveal_strlit("66/0/state");
    reveal_strlit("113/0/Access Control/Door state");
    reveal_strlit("113/0/Access Control/Opening state");
    reveal_strlit("113/0/Home Security/Motion sensor status");
    reveal_strlit("113/0/Home Security/Tampering, Product cover removed");
    reveal_strlit("113/0/Home Security/Tampering, invalid code");
    reveal_strlit("113/0/Smoke Alarm/Smoke sensor status");
    reveal_strlit("113/0/CO Alarm/CO sensor status");
    reveal_strlit("113/0/Water Alarm/Sensor status");
    reveal_strlit("value");
    reveal_strlit("/");
    reveal_strlit("target_temp");
    reveal_strlit("mode");
    assert(nat_text(67) =~= seq!['6', '7']) by { reveal_with_fuel(nat_text, 3); }
    assert(nat_text(1) =~= seq!['1']) by { reveal_with_fuel(nat_text, 2); }
    assert(t[42].key =~= alias_key_spec(67, 1, "value"@, None));
    assert forall|j: int| 0 <= j < 42 implies #[trigger] t[j].key != t[42].key by {
        if j == 2 { assert(t[j].key[0] != t[42].key[0]); }
        if j == 3 { assert(t[j].key[0] != t[42].key[0]); }
    }
    assert forall|j: int| 42 < j < t.len() implies !(#[trigger] t[j].is_write && t[j].attribute == t[42].attribute) by {
        if j == 43 { assert(t[j].attribute.len() != t[42].attribute.len()); }
    }
    lemma_entry_reads_back(t, 42, 67, 1, "value"@);
}

/// What a [`Translator`] knows.
pub struct TranslatorView {
    /// alias key → (attribute, transform)
    pub forward: Map<Seq<char>, (Seq<char>, Transform)>,
    /// attribute → write target
    pub reverse: Map<Seq<char>, WriteTargetView>,
}

pub struct Translator {
    /// Forward map: alias_key → (attribute, transform)
    forward: AssocList<ForwardTarget>,
    /// Reverse map: attribute → write target (cc/endpoint/property + inverse transform)
    reverse: AssocList<WriteTarget>,
}

impl View for Translator {
    type V = TranslatorView;

    closed spec fn view(&self) -> TranslatorView {
        TranslatorView { forward: self.forward@, reverse: self.reverse@ }
    }
}

/// The text of an optional property key: `/` and the key, or nothing.
pub open spec fn alias_key_spec(cc: u32, endpoint: u32, property: Seq<char>, property_key: Option<Seq<char>>) -> Seq<char> {
    let base = nat_text(cc as nat) + "/"@ + nat_text(endpoint as nat) + "/"@ + property;
    match property_key {
        Some(pk) => base + "/"@ + pk,
        None => base,
    }
}

/// The view of an optional string slice.
pub open spec fn opt_str_view(s: Option<&str>) -> Option<Seq<char>> {
    match s {
        Some(x) => Some(x@),
        None => None,
    }
}

impl Translator {
    pub fn new() -> (r: Self)
        ensures
            r@.forward == forward_of(alias_table_spec()),
            r@.reverse == reverse_of(alias_table_spec()),
    {
        let mut forward: AssocList<ForwardTarget> = AssocList::new();
        let mut reverse: AssocList<WriteTarget> = AssocList::new();
        let table = alias_table();
        let ghost spec_table = alias_table_spec();
        assert(spec_table.take(0) =~= Seq::<AliasSpec>::empty());
        let mut i: usize = 0;
        while i < table.len()
            invariant
                i <= table@.len(),
                table@.len() == spec_table.len(),
                spec_table == alias_table_spec(),
                forall|j: int| 0 <= j < table@.len() ==> (#[trigger] table@[j])@ == spec_table[j],
                forward@ == forward_of(spec_table.take(i as int)),
                reverse@ == reverse_of(spec_table.take(i as int)),
            decreases table@.len() - i,
        {
            let entry = &table[i];
            let ghost e = spec_table[i as int];
            assert(spec_table.take(i + 1).drop_last() =~= spec_table.take(i as int));
            assert(spec_table.take(i + 1).last() == e);
            forward.insert_if_absent(
                owned(entry.key),
                ForwardTarget { attribute: owned(entry.attribute), transform: entry.transform },
            );
            if entry.is_write {
                match write_target_from_key(entry.key, entry.transform) {
                    Some(target) => reverse.insert(owned(entry.attribute), target),
                    None => {},
                }
            }
            i = i + 1;
        }
        assert(spec_table.take(i as int) =~= spec_table);
        Translator { forward, reverse }
    }

    /// Build the alias key from a ValueID's components.
    pub fn alias_key(cc: u32, endpoint: u32, property: &str, property_key: Option<&str>) -> (r: String)
        ensures
            r@ == alias_key_spec(cc, endpoint, property@, opt_str_view(property_key)),
    {
        let mut key = u64_text(cc as u64);
        key.append("/");
        let ep = u64_text(endpoint as u64);
        key.append(ep.as_str());
        key.append("/");
        key.append(property);
        match property_key {
            Some(pk) => {
                key.append("/");
                key.append(pk);
            },
            None => {},
        }
        key
    }

    /// Translate a raw ZWave value to `(attribute_name, canonical_value)`.
    /// Returns `None` if this ValueID is not in the alias table.
    pub fn translate(
        &self,
        cc: u32,
        endpoint: u32,
        property: &str,
        property_key: Option<&str>,
        raw_value: &JsonValue,
    ) -> (r: Option<(String, JsonValue)>)
        ensures
            ({
                let key = alias_key_spec(cc, endpoint, property@, opt_str_view(property_key));
                match r {
                    Some((attr, value)) => self@.forward.contains_key(key)
                        && attr@ == self@.forward[key].0
                        && value@ == apply_spec(self@.forward[key].1, raw_value@),
                    None => !self@.forward.contains_key(key),
                }
            }),
    {
        let key = Self::alias_key(cc, endpoint, property, property_key);
        match self.forward.get(key.as_str()) {
            Some(target) => Some((target.attribute.clone(), target.transform.apply(raw_value))),
            None => None,
        }
    }

    /// Find the write target for a HomeCore attribute.
    pub fn write_target(&self, attribute: &str) -> (r: Option<&WriteTarget>)
        ensures
            match r {
                Some(t) => self@.reverse.contains_key(attribute@) && t@ == self@.reverse[attribute@],
                None => !self@.reverse.contains_key(attribute@),
            },
    {
        self.reverse.get(attribute)
    }
}

/// The text a `propertyKey` contributes to alias keys: a number's text, a
/// non-empty string; nothing for null, the empty string or anything else.
pub open spec fn property_key_text(pk: JsonView) -> Option<Seq<char>> {
    match pk {
        JsonView::Number(n) => Some(number_text(n)),
        JsonView::Str(s) => if s.len() == 0 { None } else { Some(s) },
        _ => None,
    }
}

/// Stringify a `propertyKey` Value for use in alias keys.
/// Returns `None` if the key is null/absent (omit from key).
pub fn property_key_str(pk: &JsonValue) -> (r: Option<String>)
    ensures
        match property_key_text(pk@) {
            Some(t) => r matches Some(x) && x@ == t,
            None => r is None,
        },
{
    match pk {
        JsonValue::Null => None,
        JsonValue::Number(n) => Some(n.text()),
        JsonValue::String(s) => {
            if s.as_str().unicode_len() == 0 {
                None
            } else {
                Some(s.clone())
            }
        },
        _ => None,
    }
}

} // verus!
