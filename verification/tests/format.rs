use persistent::{PersistenceError, Serialized, StorageFormat};
use std::collections::BTreeMap;

type KeyBindings = BTreeMap<String, String>;

fn resource() -> KeyBindings {
    let mut bindings = BTreeMap::new();
    bindings.insert("jump".to_string(), "Space".to_string());
    bindings.insert("crouch".to_string(), "KeyC".to_string());
    bindings
}

fn text<E: ToString>(encoded: Result<String, E>) -> Result<Serialized, String> {
    encoded.map(Serialized::Text).map_err(|e| e.to_string())
}

fn text_of(input: Serialized) -> String {
    match input {
        Serialized::Text(text) => text,
        Serialized::Binary(_) => panic!("expected text"),
    }
}

#[test]
fn test_bincode() {
    let format = StorageFormat::Bincode;
    let resource = resource();

    let encoded = bincode::serialize(&resource).map(Serialized::Binary).map_err(|e| e.to_string());
    let actual_serialized_resource = format.serialize("key bindings", encoded).unwrap();
    let expected_serialized_resource = bincode::serialize(&resource).unwrap();
    assert_eq!(actual_serialized_resource, expected_serialized_resource);

    let input = format.decoder_input("key bindings", &actual_serialized_resource).unwrap();
    let bytes = match input {
        Serialized::Binary(bytes) => bytes,
        Serialized::Text(_) => panic!("expected bytes"),
    };
    let decoded = bincode::deserialize::<KeyBindings>(&bytes).map_err(|e| e.to_string());
    let actual_deserialized_resource = format.deserialize("key bindings", decoded).unwrap();
    let expected_deserialized_resource =
        bincode::deserialize::<KeyBindings>(&expected_serialized_resource).unwrap();
    assert_eq!(expected_deserialized_resource, actual_deserialized_resource);
}

fn check_textual(
    format: StorageFormat,
    encoded: Result<Serialized, String>,
    expected: String,
    parse: fn(&str) -> Result<KeyBindings, String>,
) {
    let actual_serialized_resource = format.serialize("key bindings", encoded).unwrap();
    let expected_serialized_resource = expected.into_bytes();
    assert_eq!(actual_serialized_resource, expected_serialized_resource);

    let input = format.decoder_input("key bindings", &actual_serialized_resource).unwrap();
    let decoded = parse(&text_of(input));
    let actual_deserialized_resource = format.deserialize("key bindings", decoded).unwrap();
    let expected_deserialized_resource =
        parse(std::str::from_utf8(&expected_serialized_resource).unwrap()).unwrap();
    assert_eq!(expected_deserialized_resource, actual_deserialized_resource);
    assert_eq!(actual_deserialized_resource, resource());
}

#[test]
fn test_ini() {
    let resource = resource();
    check_textual(
        StorageFormat::Ini,
        text(serde_ini::to_string(&resource)),
        serde_ini::to_string(&resource).unwrap(),
        |s| serde_ini::from_str(s).map_err(|e| e.to_string()),
    );
}

#[test]
fn test_json() {
    let resource = resource();
    check_textual(
        StorageFormat::Json,
        text(serde_json::to_string(&resource)),
        serde_json::to_string(&resource).unwrap(),
        |s| serde_json::from_str(s).map_err(|e| e.to_string()),
    );
}

#[test]
fn test_json_pretty() {
    let resource = resource();
    check_textual(
        StorageFormat::JsonPretty,
        text(serde_json::to_string_pretty(&resource)),
        serde_json::to_string_pretty(&resource).unwrap(),
        |s| serde_json::from_str(s).map_err(|e| e.to_string()),
    );
}

#[test]
fn test_ron() {
    let resource = resource();
    check_textual(
        StorageFormat::Ron,
        text(ron::to_string(&resource)),
        ron::to_string(&resource).unwrap(),
        |s| ron::from_str(s).map_err(|e| e.to_string()),
    );
}

#[test]
fn test_ron_pretty() {
    let resource = resource();
    check_textual(
        StorageFormat::RonPretty,
        text(ron::ser::to_string_pretty(&resource, Default::default())),
        ron::ser::to_string_pretty(&resource, Default::default()).unwrap(),
        |s| ron::from_str(s).map_err(|e| e.to_string()),
    );
}

#[test]
fn test_toml() {
    let resource = resource();
    check_textual(
        StorageFormat::Toml,
        text(toml::to_string(&resource)),
        toml::to_string(&resource).unwrap(),
        |s| toml::from_str(s).map_err(|e| e.to_string()),
    );
}

#[test]
fn test_toml_pretty() {
    let resource = resource();
    check_textual(
        StorageFormat::TomlPretty,
        text(toml::to_string_pretty(&resource)),
        toml::to_string_pretty(&resource).unwrap(),
        |s| toml::from_str(s).map_err(|e| e.to_string()),
    );
}

#[test]
fn test_yaml() {
    let resource = resource();
    check_textual(
        StorageFormat::Yaml,
        text(serde_yaml::to_string(&resource)),
        serde_yaml::to_string(&resource).unwrap(),
        |s| serde_yaml::from_str(s).map_err(|e| e.to_string()),
    );
}

#[test]
fn text_is_stored_as_utf8() {
    let bytes = StorageFormat::Json
        .serialize("greeting", Ok(Serialized::Text("h\u{e9}llo \u{1f600}".to_string())))
        .unwrap();
    assert_eq!(bytes, "h\u{e9}llo \u{1f600}".as_bytes().to_vec());
    let input = StorageFormat::Json.decoder_input("greeting", &bytes).unwrap();
    assert_eq!(input, Serialized::Text("h\u{e9}llo \u{1f600}".to_string()));
}

#[test]
fn binary_input_is_passed_as_is() {
    let bytes = vec![0xff, 0x00, 0x80];
    let input = StorageFormat::Bincode.decoder_input("state", &bytes).unwrap();
    assert_eq!(input, Serialized::Binary(bytes));
}

#[test]
fn invalid_utf8_is_an_encoding_error() {
    let bytes = vec![b'a', 0xff, b'b'];
    let expected_message = String::from_utf8(bytes.clone()).unwrap_err().to_string();
    for format in [
        StorageFormat::Ini,
        StorageFormat::Json,
        StorageFormat::JsonPretty,
        StorageFormat::Ron,
        StorageFormat::RonPretty,
        StorageFormat::Toml,
        StorageFormat::TomlPretty,
        StorageFormat::Yaml,
    ] {
        let error = format.decoder_input("state", &bytes).unwrap_err();
        assert_eq!(error, PersistenceError::Encoding(expected_message.clone()));
        assert!(error.is_serde());
    }
}

#[test]
fn encoder_failures_map_to_serialization_errors() {
    let m = || "boom".to_string();
    let cases = [
        (StorageFormat::Bincode, PersistenceError::BincodeSerialization(m())),
        (StorageFormat::Ini, PersistenceError::IniSerialization(m())),
        (StorageFormat::Json, PersistenceError::JsonSerialization(m())),
        (StorageFormat::JsonPretty, PersistenceError::JsonSerialization(m())),
        (StorageFormat::Ron, PersistenceError::RonSerialization(m())),
        (StorageFormat::RonPretty, PersistenceError::RonSerialization(m())),
        (StorageFormat::Toml, PersistenceError::TomlSerialization(m())),
        (StorageFormat::TomlPretty, PersistenceError::TomlSerialization(m())),
        (StorageFormat::Yaml, PersistenceError::YamlSerialization(m())),
    ];
    for (format, expected) in cases {
        assert_eq!(format.serialize("state", Err(m())), Err(expected.clone()));
        assert_eq!(format.serialization_error(m()), expected);
        assert!(expected.is_serde());
    }
}

#[test]
fn decoder_failures_map_to_deserialization_errors() {
    let m = || "bad".to_string();
    let cases = [
        (StorageFormat::Bincode, PersistenceError::BincodeDeserialization(m())),
        (StorageFormat::Ini, PersistenceError::IniDeserialization(m())),
        (StorageFormat::Json, PersistenceError::JsonDeserialization(m())),
        (StorageFormat::JsonPretty, PersistenceError::JsonDeserialization(m())),
        (StorageFormat::Ron, PersistenceError::RonDeserialization(m())),
        (StorageFormat::RonPretty, PersistenceError::RonDeserialization(m())),
        (StorageFormat::Toml, PersistenceError::TomlDeserialization(m())),
        (StorageFormat::TomlPretty, PersistenceError::TomlDeserialization(m())),
        (StorageFormat::Yaml, PersistenceError::YamlDeserialization(m())),
    ];
    for (format, expected) in cases {
        assert_eq!(format.deserialize::<u8>("state", Err(m())), Err(expected.clone()));
        assert_eq!(format.deserialization_error(m()), expected);
        assert!(expected.is_serde());
    }
    assert_eq!(StorageFormat::Json.deserialize("state", Ok(7u8)), Ok(7u8));
}

#[test]
fn storage_errors_are_not_serde() {
    assert!(!PersistenceError::Filesystem("denied".to_string()).is_serde());
    assert!(!PersistenceError::Browser("quota".to_string()).is_serde());
    assert!(PersistenceError::Encoding("bad utf-8".to_string()).is_serde());
}

#[test]
fn only_bincode_is_binary() {
    assert!(!StorageFormat::Bincode.is_textual());
    assert!(StorageFormat::Ini.is_textual());
    assert!(StorageFormat::TomlPretty.is_textual());
    assert!(StorageFormat::Yaml.is_textual());
}
