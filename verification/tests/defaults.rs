use sound_pipewire::defaults::{name_in_json, name_or_whole_value, parse_default_name, Defaults};
use sound_pipewire::kind::DeviceKind;
use sound_pipewire::registry::Registry;

#[test]
fn the_name_is_read_from_json() {
    assert_eq!(parse_default_name("{\"name\":\"alsa_output.pci\"}"), "alsa_output.pci");
    assert_eq!(parse_default_name(" { \"id\" : 4, \"name\" : \"a\\u0062\\n\" } "), "ab\n");
    assert_eq!(parse_default_name("{\"name\":\"first\",\"name\":\"last\"}"), "last");
    assert_eq!(parse_default_name("{\"name\":\"\"}"), "");
}

#[test]
fn any_other_value_is_the_name() {
    let values = [
        "", "alsa_output.pci", "{\"name\":\"x\"", "{\"name\":\"x\"} y", "{\"name\":4}",
        "{\"name\":null}", "{\"Name\":\"x\"}", "{}", "[\"name\"]", "[{\"name\":\"x\"}]",
        "\"name\"", "7", "null", "{\"a\":{\"name\":\"x\"}}",
    ];
    for value in values {
        assert_eq!(parse_default_name(value), value);
    }
}

#[test]
fn the_name_is_found_in_an_object() {
    let mut members = serde_json::Map::new();
    members.insert("id".to_string(), serde_json::Value::from(4));
    assert_eq!(name_in_json(&serde_json::Value::Object(members.clone())), None);
    members.insert("name".to_string(), serde_json::Value::from("usb"));
    assert_eq!(name_in_json(&serde_json::Value::Object(members.clone())), Some("usb"));
    members.insert("name".to_string(), serde_json::Value::Bool(true));
    assert_eq!(name_in_json(&serde_json::Value::Object(members)), None);
    assert_eq!(name_in_json(&serde_json::Value::from("name")), None);
    assert_eq!(name_in_json(&serde_json::Value::Null), None);
    assert_eq!(name_in_json(&serde_json::Value::Array(vec![serde_json::Value::from("name")])), None);
}

#[test]
fn a_found_name_takes_the_place_of_the_value() {
    assert_eq!(name_or_whole_value(Some("found"), "value"), "found");
    assert_eq!(name_or_whole_value(None, "value"), "value");
}

#[test]
fn only_the_two_keys_set_a_default() {
    let mut defaults = Defaults::unknown();
    assert_eq!(defaults.of_kind(DeviceKind::Sink), None);
    assert_eq!(defaults.of_kind(DeviceKind::Source), None);
    defaults.set(Some("default.audio.sink"), "speakers".to_string());
    assert_eq!(defaults.of_kind(DeviceKind::Sink), Some(&"speakers".to_string()));
    assert_eq!(defaults.of_kind(DeviceKind::Source), None);
    defaults.set(Some("default.audio.source"), "microphone".to_string());
    defaults.set(Some("default.configured.audio.sink"), "other".to_string());
    defaults.set(None, "none".to_string());
    assert_eq!(defaults.of_kind(DeviceKind::Sink), Some(&"speakers".to_string()));
    assert_eq!(defaults.of_kind(DeviceKind::Source), Some(&"microphone".to_string()));
    defaults.set(Some("default.audio.sink"), "headphones".to_string());
    assert_eq!(defaults.of_kind(DeviceKind::Sink), Some(&"headphones".to_string()));
}

#[test]
fn a_name_written_as_json_reads_back() {
    let mut names = vec![
        String::new(),
        "alsa_output.pci".to_string(),
        "quote \" backslash \\ slash / delete \u{7f}".to_string(),
        "{\"name\":\"x\"}".to_string(),
        "\u{e9}\u{4e2d}\u{1f50a}\u{2028}\u{ffff}".to_string(),
    ];
    for code in 0..0x100u32 {
        names.push(format!("a{}b", char::from_u32(code).unwrap()));
    }
    for name in names {
        let mut members = serde_json::Map::new();
        members.insert("name".to_string(), serde_json::Value::from(name.as_str()));
        let written = serde_json::Value::Object(members).to_string();
        assert_eq!(parse_default_name(&written), name);
        let mut registry = Registry::new();
        assert!(registry.property_changed(0, Some("default.audio.sink"), Some(&written)));
        assert_eq!(registry.default_device(DeviceKind::Sink), Some(&name));
    }
}

#[test]
fn the_written_form_of_a_name_is_read() {
    assert_eq!(
        parse_default_name("{\"name\":\"\\\"\\\\\\b\\t\\n\\f\\r\\u0000\\u001f\\u000b\"}"),
        "\"\\\u{8}\t\n\u{c}\r\u{0}\u{1f}\u{b}"
    );
}
