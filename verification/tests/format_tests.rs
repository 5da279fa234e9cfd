use conrig::error::{LangError, TomlError};
use conrig::FileFormat;
use std::collections::BTreeMap;

fn string_map() -> BTreeMap<String, String> {
    let mut m = BTreeMap::new();
    m.insert("name".to_string(), "conrig".to_string());
    m.insert("tier".to_string(), "alpha".to_string());
    m
}

fn int_map() -> BTreeMap<String, u32> {
    let mut m = BTreeMap::new();
    m.insert("id".to_string(), 42);
    m.insert("n".to_string(), 7);
    m
}

#[test]
fn toml_round_trip() {
    let v = string_map();
    let text = FileFormat::Toml.write_str(&v).unwrap();
    let back: BTreeMap<String, String> = FileFormat::Toml.read_str(&text).unwrap();
    assert_eq!(v, back);
}

#[test]
fn json_round_trip() {
    let v = int_map();
    let text = FileFormat::Json.write_str(&v).unwrap();
    let back: BTreeMap<String, u32> = FileFormat::Json.read_str(&text).unwrap();
    assert_eq!(v, back);
}

#[test]
fn yaml_round_trip() {
    let v = int_map();
    let text = FileFormat::Yaml.write_str(&v).unwrap();
    let back: BTreeMap<String, u32> = FileFormat::Yaml.read_str(&text).unwrap();
    assert_eq!(v, back);
}

#[test]
fn ron_round_trip() {
    let v = int_map();
    let text = FileFormat::Ron.write_str(&v).unwrap();
    let back: BTreeMap<String, u32> = FileFormat::Ron.read_str(&text).unwrap();
    assert_eq!(v, back);
}

#[test]
fn extensions() {
    assert_eq!(FileFormat::Toml.extension(), "toml");
    assert_eq!(FileFormat::Json.extension(), "json");
    assert_eq!(FileFormat::Yaml.extension(), "yaml");
    assert_eq!(FileFormat::Ron.extension(), "ron");
}

#[test]
fn default_format_is_toml() {
    assert_eq!(FileFormat::default(), FileFormat::Toml);
    assert_eq!(FileFormat::DEFAULT_FILE_FORMAT, FileFormat::Toml);
}

#[test]
fn toml_decode_error() {
    let r: Result<BTreeMap<String, u32>, LangError> = FileFormat::Toml.read_str("= nonsense =");
    assert!(matches!(
        r,
        Err(LangError::TomlError(TomlError::Deserialize(_)))
    ));
}

#[test]
fn json_decode_error() {
    let r: Result<BTreeMap<String, u32>, LangError> = FileFormat::Json.read_str("{");
    assert!(matches!(r, Err(LangError::JsonError(_))));
}

#[test]
fn yaml_decode_error() {
    let r: Result<BTreeMap<String, u32>, LangError> = FileFormat::Yaml.read_str("{");
    assert!(matches!(r, Err(LangError::YamlError(_))));
}

#[test]
fn ron_decode_error() {
    let r: Result<BTreeMap<String, u32>, LangError> = FileFormat::Ron.read_str("(");
    assert!(matches!(r, Err(LangError::RonError(_))));
}

#[test]
fn toml_encode_error() {
    // A bare integer is no TOML document: the top level must be a table.
    let r = FileFormat::Toml.write_str(&42u32);
    assert!(matches!(
        r,
        Err(LangError::TomlError(TomlError::Serialize(_)))
    ));
}
