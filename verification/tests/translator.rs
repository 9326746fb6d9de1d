use hc_zwave::json::{JsonNumber, JsonValue};
use hc_zwave::translator::{property_key_str, thermostat_mode_fwd, thermostat_mode_rev, Transform, Translator};

fn num(n: u64) -> JsonValue {
    JsonValue::Number(JsonNumber::PosInt(n))
}

fn float(f: f64, text: &str) -> JsonValue {
    JsonValue::Number(JsonNumber::Float { bits: f.to_bits(), text: text.to_string() })
}

fn string(s: &str) -> JsonValue {
    JsonValue::String(s.to_string())
}

#[test]
fn binary_switch_forward() {
    let t = Translator::new();
    let (attr, val) = t
        .translate(37, 0, "currentValue", None, &JsonValue::Bool(true))
        .unwrap();
    assert_eq!(attr, "on");
    assert_eq!(val, JsonValue::Bool(true));
}

#[test]
fn door_lock_nonzero_bool() {
    let t = Translator::new();
    let (attr, val) = t.translate(98, 0, "currentMode", None, &num(255)).unwrap();
    assert_eq!(attr, "locked");
    assert_eq!(val, JsonValue::Bool(true));

    let (_, val2) = t.translate(98, 0, "currentMode", None, &num(0)).unwrap();
    assert_eq!(val2, JsonValue::Bool(false));
}

#[test]
fn thermostat_mode_map() {
    let t = Translator::new();
    let (attr, val) = t.translate(64, 0, "mode", None, &num(1)).unwrap();
    assert_eq!(attr, "mode");
    assert_eq!(val, string("heat"));
}

#[test]
fn meter_propertykey() {
    let t = Translator::new();
    let (attr, val) = t
        .translate(50, 0, "value", Some("65537"), &float(120.5, "120.5"))
        .unwrap();
    assert_eq!(attr, "power_w");
    assert_eq!(val, float(120.5, "120.5"));
}

#[test]
fn gas_and_water_meters() {
    let t = Translator::new();
    let (attr, val) = t.translate(50, 0, "value", Some("131073"), &float(12.5, "12.5")).unwrap();
    assert_eq!(attr, "gas_m3");
    assert_eq!(val, float(12.5, "12.5"));
    let (attr, _) = t.translate(50, 0, "value", Some("196609"), &num(3)).unwrap();
    assert_eq!(attr, "water_m3");
    assert!(t.translate(50, 0, "value", Some("131074"), &num(3)).is_none());
}

#[test]
fn door_lock_reverse() {
    let t = Translator::new();
    let target = t.write_target("locked").unwrap();
    assert_eq!(target.command_class, 98);
    assert_eq!(target.property, "targetMode");
    let native = target.transform.reverse(&JsonValue::Bool(true));
    assert_eq!(native, num(255));
}

#[test]
fn unknown_cc_returns_none() {
    let t = Translator::new();
    assert!(t
        .translate(999, 0, "unknownProp", None, &JsonValue::Bool(true))
        .is_none());
}

#[test]
fn cc48_contact_sensor() {
    let t = Translator::new();
    // Door/Window open (true) and closed (false)
    let (attr, val) = t
        .translate(48, 0, "Door/Window", None, &JsonValue::Bool(true))
        .unwrap();
    assert_eq!(attr, "contact_open");
    assert_eq!(val, JsonValue::Bool(true));

    let (_, val2) = t
        .translate(48, 0, "Door/Window", None, &JsonValue::Bool(false))
        .unwrap();
    assert_eq!(val2, JsonValue::Bool(false));

    // Motion sensor
    let (attr3, _) = t
        .translate(48, 0, "Motion", None, &JsonValue::Bool(true))
        .unwrap();
    assert_eq!(attr3, "motion");

    // Old "Door/Window Status" key should no longer match
    assert!(t
        .translate(48, 0, "Door/Window Status", None, &JsonValue::Bool(true))
        .is_none());
}

#[test]
fn cc113_access_control_door_state() {
    let t = Translator::new();
    // 22 = open
    let (attr, val) = t
        .translate(113, 0, "Access Control", Some("Door state"), &num(22))
        .unwrap();
    assert_eq!(attr, "contact_open");
    assert_eq!(val, JsonValue::Bool(true));

    // 23 = closed
    let (_, val2) = t
        .translate(113, 0, "Access Control", Some("Door state"), &num(23))
        .unwrap();
    assert_eq!(val2, JsonValue::Bool(false));

    // 0 = idle
    let (_, val3) = t
        .translate(113, 0, "Access Control", Some("Door state"), &num(0))
        .unwrap();
    assert_eq!(val3, JsonValue::Bool(false));
}

#[test]
fn cc113_opening_state() {
    let t = Translator::new();
    // 1 = open, 0 = closed (synthetic value from zwave-js)
    let (attr, val) = t
        .translate(113, 0, "Access Control", Some("Opening state"), &num(1))
        .unwrap();
    assert_eq!(attr, "contact_open");
    assert_eq!(val, JsonValue::Bool(true));

    let (_, val2) = t
        .translate(113, 0, "Access Control", Some("Opening state"), &num(0))
        .unwrap();
    assert_eq!(val2, JsonValue::Bool(false));
}

#[test]
fn cc113_no_propertykey_does_not_match() {
    // CC 113 without a propertyKey should not match anything — it always has one.
    let t = Translator::new();
    assert!(t
        .translate(113, 0, "Access Control", None, &num(22))
        .is_none());
    assert!(t
        .translate(113, 0, "Home Security", None, &num(1))
        .is_none());
}

// ---------------------------------------------------------------------------
// Further cases
// ---------------------------------------------------------------------------

#[test]
fn alias_key_with_and_without_property_key() {
    assert_eq!(Translator::alias_key(50, 0, "value", Some("65537")), "50/0/value/65537");
    assert_eq!(Translator::alias_key(37, 0, "currentValue", None), "37/0/currentValue");
    assert_eq!(Translator::alias_key(4294967295, 12, "x", Some("")), "4294967295/12/x/");
}

#[test]
fn property_slash_matches_like_property_key() {
    // The key is text: "Door" with property key "Window" reads as "48/0/Door/Window".
    let t = Translator::new();
    let (attr, _) = t
        .translate(48, 0, "Door", Some("Window"), &JsonValue::Bool(true))
        .unwrap();
    assert_eq!(attr, "contact_open");
}

#[test]
fn nonzero_bool_on_floats_and_negatives() {
    let t = Transform::NonzeroBool;
    assert_eq!(t.apply(&float(0.0, "0.0")), JsonValue::Bool(false));
    assert_eq!(t.apply(&float(-0.0, "-0.0")), JsonValue::Bool(false));
    assert_eq!(t.apply(&float(0.5, "0.5")), JsonValue::Bool(true));
    assert_eq!(t.apply(&JsonValue::Number(JsonNumber::NegInt(-3))), JsonValue::Bool(true));
    assert_eq!(t.apply(&string("1")), JsonValue::Bool(false));
    assert_eq!(t.apply(&JsonValue::Null), JsonValue::Bool(false));
    assert_eq!(t.apply(&JsonValue::Bool(false)), JsonValue::Bool(false));
}

#[test]
fn access_control_door_state_only_22() {
    let t = Transform::AccessControlDoorState;
    assert_eq!(t.apply(&num(22)), JsonValue::Bool(true));
    assert_eq!(t.apply(&float(22.0, "22.0")), JsonValue::Bool(false));
    assert_eq!(t.apply(&string("22")), JsonValue::Bool(false));
    assert_eq!(t.reverse(&num(22)), num(22));
}

#[test]
fn mode_map_forward_cases() {
    let t = Transform::ModeMap;
    assert_eq!(t.apply(&num(0)), string("off"));
    assert_eq!(t.apply(&num(11)), string("energy_heat"));
    assert_eq!(t.apply(&string("6")), string("fan_only"));
    // Not in the table: passed through.
    assert_eq!(t.apply(&num(4)), num(4));
    assert_eq!(t.apply(&float(1.0, "1.0")), float(1.0, "1.0"));
    let arr = JsonValue::Array(vec![num(1)]);
    assert_eq!(t.apply(&arr), JsonValue::Array(vec![num(1)]));
}

#[test]
fn mode_map_reverse_gives_integer() {
    let t = Transform::ModeMap;
    assert_eq!(t.reverse(&string("heat")), num(1));
    assert_eq!(t.reverse(&string("off")), num(0));
    assert_eq!(t.reverse(&string("energy_heat")), num(11));
    assert_eq!(t.reverse(&string("fan_only")), num(6));
    assert_eq!(t.reverse(&string("turbo")), string("turbo"));
    assert_eq!(t.reverse(&num(3)), num(3));
}

#[test]
fn mode_map_round_trips() {
    let t = Transform::ModeMap;
    for k in [0u64, 1, 2, 3, 6, 11] {
        assert_eq!(t.reverse(&t.apply(&num(k))), num(k));
    }
    for name in ["off", "heat", "cool", "auto", "fan_only", "energy_heat"] {
        assert_eq!(t.apply(&t.reverse(&string(name))), string(name));
    }
}

#[test]
fn mode_map_keeps_numbers() {
    let t = Transform::ModeMap;
    let neg = JsonValue::Number(JsonNumber::NegInt(-1));
    assert_eq!(t.reverse(&float(1.0, "1.0")), float(1.0, "1.0"));
    assert_eq!(t.reverse(&num(1)), num(1));
    assert_eq!(t.reverse(&neg), neg);
    assert_eq!(t.apply(&float(3.0, "3.0")), float(3.0, "3.0"));
    assert_eq!(t.apply(&float(1e300, "1e300")), float(1e300, "1e300"));
    assert_eq!(t.apply(&neg), neg);
}

#[test]
fn nonzero_bool_reverse_cases() {
    let t = Transform::NonzeroBool;
    assert_eq!(t.reverse(&JsonValue::Bool(true)), num(255));
    assert_eq!(t.reverse(&JsonValue::Bool(false)), num(0));
    assert_eq!(t.reverse(&num(7)), num(7));
}

#[test]
fn identity_copies_nested_values() {
    let v = JsonValue::Object(vec![
        ("r".to_string(), num(255)),
        ("list".to_string(), JsonValue::Array(vec![JsonValue::Null, string("x")])),
    ]);
    let copy = Transform::Identity.apply(&v);
    assert_eq!(copy, v);
    assert_eq!(Transform::Identity.reverse(&v), v);
}

#[test]
fn write_targets_of_table() {
    let t = Translator::new();
    let on = t.write_target("on").unwrap();
    assert_eq!((on.command_class, on.endpoint, on.property.as_str()), (37, 0, "targetValue"));
    let temp = t.write_target("target_temp").unwrap();
    assert_eq!((temp.command_class, temp.endpoint, temp.property.as_str()), (67, 1, "value"));
    let mode = t.write_target("mode").unwrap();
    assert_eq!(mode.transform, Transform::ModeMap);
    assert!(t.write_target("motion").is_none());
    assert!(t.write_target("contact_open").is_none());
}

#[test]
fn property_key_text_cases() {
    assert_eq!(property_key_str(&JsonValue::Null), None);
    assert_eq!(property_key_str(&num(65537)), Some("65537".to_string()));
    assert_eq!(property_key_str(&JsonValue::Number(JsonNumber::NegInt(-12))), Some("-12".to_string()));
    assert_eq!(property_key_str(&string("")), None);
    assert_eq!(property_key_str(&string("Door state")), Some("Door state".to_string()));
    assert_eq!(property_key_str(&JsonValue::Bool(true)), None);
}

#[test]
fn mode_tables() {
    assert_eq!(thermostat_mode_fwd("3"), Some("auto"));
    assert_eq!(thermostat_mode_fwd("4"), None);
    assert_eq!(thermostat_mode_rev("cool"), Some(2));
    assert_eq!(thermostat_mode_rev("Cool"), None);
}
