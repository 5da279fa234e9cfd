use conrig::parser::{ConfigFile, FileSnapshot, RawConfigFile};
use conrig::{
    ConfigOption, ConfigPathMetadata, ConrigError, FileFormat, FileSystemError, ProjectPath,
};
use std::collections::BTreeMap;

fn descriptor(names: &[&str]) -> ConfigPathMetadata {
    ConfigPathMetadata::new(
        ProjectPath::new("org".to_string(), "acme".to_string(), "app".to_string()),
        names.iter().map(|n| n.to_string()).collect(),
        FileFormat::Toml,
        vec![],
        vec![],
        ConfigOption::default(),
    )
}

fn int_map() -> BTreeMap<String, u32> {
    let mut m = BTreeMap::new();
    m.insert("id".to_string(), 1);
    m
}

#[test]
fn unresolved_terminal_operations_fail() {
    let snap = FileSnapshot::new();
    let raw = RawConfigFile::new(FileFormat::Toml, None, descriptor(&["app"]));
    let read: Result<BTreeMap<String, u32>, _> = raw.read(&snap);
    assert!(matches!(read, Err(ConrigError::NoConfigurationFile)));
    let write = raw.write(&int_map());
    assert!(matches!(write, Err(ConrigError::NoConfigurationFile)));
    let read_or_new = raw.read_or_new(int_map(), &snap);
    assert!(matches!(read_or_new, Err(ConrigError::NoConfigurationFile)));
    let read_or_default: Result<(BTreeMap<String, u32>, _), _> = raw.read_or_default(&snap);
    assert!(matches!(
        read_or_default,
        Err(ConrigError::NoConfigurationFile)
    ));
}

#[test]
fn fallback_path_installs_only_when_absent() {
    let raw = RawConfigFile::new(FileFormat::Toml, None, descriptor(&["app"]));
    let cf = raw.fallback_path("fallback/app.toml".to_string());
    assert_eq!(cf.path, "fallback/app.toml".to_string());

    let resolved = RawConfigFile::new(
        FileFormat::Json,
        Some("found/app.json".to_string()),
        descriptor(&["app"]),
    );
    let cf = resolved.fallback_path("fallback/app.toml".to_string());
    assert_eq!(cf.path, "found/app.json".to_string());
    assert_eq!(cf.file_format, FileFormat::Json);
}

#[test]
fn fallback_default_local_synthesizes_path() {
    let d = descriptor(&["app"]);
    let raw = RawConfigFile::new(FileFormat::Toml, None, d);
    let cf = raw.fallback_default_local("cwd");
    assert_eq!(cf.path, "cwd/app.toml".to_string());
}

#[test]
fn fallback_default_prefers_local_by_default() {
    let d = descriptor(&["app"]);
    let raw = RawConfigFile::new(FileFormat::Toml, None, d);
    let cf = raw.fallback_default("cwd").unwrap();
    assert_eq!(cf.path, "cwd/app.toml".to_string());
}

#[test]
fn read_or_new_creates_exactly_one_file_and_returns_default() {
    let snap = FileSnapshot::new();
    let cf = ConfigFile::new(FileFormat::Toml, "fresh/dir/app.toml".to_string());
    let default = int_map();
    let (value, request) = cf.read_or_new(default.clone(), &snap).unwrap();
    assert_eq!(value, default);
    let request = request.unwrap();
    assert_eq!(request.path, "fresh/dir/app.toml".to_string());
    let decoded: BTreeMap<String, u32> = FileFormat::Toml.read_str(&request.contents).unwrap();
    assert_eq!(decoded, default);
}

#[test]
fn read_or_new_reads_existing_file_and_writes_nothing() {
    let mut snap = FileSnapshot::new();
    snap.add_file("dir/app.toml".to_string(), "id = 7\n".to_string());
    let cf = ConfigFile::new(FileFormat::Toml, "dir/app.toml".to_string());
    let (value, request) = cf.read_or_new(int_map(), &snap).unwrap();
    assert!(request.is_none());
    let mut expected = BTreeMap::new();
    expected.insert("id".to_string(), 7u32);
    assert_eq!(value, expected);
}

#[test]
fn read_missing_file_is_an_open_error() {
    let snap = FileSnapshot::new();
    let cf = ConfigFile::new(FileFormat::Toml, "dir/app.toml".to_string());
    let r: Result<BTreeMap<String, u32>, _> = cf.read(&snap);
    assert!(matches!(
        r,
        Err(ConrigError::FileSystemError(FileSystemError::OpenConfig))
    ));
}

#[test]
fn read_decodes_snapshot_contents() {
    let mut snap = FileSnapshot::new();
    snap.add_file(
        "dir/app.json".to_string(),
        "{\"id\":42}".to_string(),
    );
    let cf = ConfigFile::new(FileFormat::Json, "dir/app.json".to_string());
    let value: BTreeMap<String, u32> = cf.read(&snap).unwrap();
    let mut expected = BTreeMap::new();
    expected.insert("id".to_string(), 42u32);
    assert_eq!(value, expected);
}

#[test]
fn malformed_contents_are_a_lang_error() {
    let mut snap = FileSnapshot::new();
    snap.add_file("dir/app.json".to_string(), "{".to_string());
    let cf = ConfigFile::new(FileFormat::Json, "dir/app.json".to_string());
    let r: Result<BTreeMap<String, u32>, _> = cf.read(&snap);
    assert!(matches!(r, Err(ConrigError::LangError(_))));
}

#[test]
fn write_produces_a_request_for_the_handle_path() {
    let cf = ConfigFile::new(FileFormat::Yaml, "dir/app.yaml".to_string());
    let request = cf.write(&int_map()).unwrap();
    assert_eq!(request.path, "dir/app.yaml".to_string());
    let decoded: BTreeMap<String, u32> = FileFormat::Yaml.read_str(&request.contents).unwrap();
    assert_eq!(decoded, int_map());
}

#[test]
fn snapshot_lookup_takes_first_entry() {
    let mut snap = FileSnapshot::new();
    snap.add_file("a".to_string(), "one".to_string());
    snap.add_file("a".to_string(), "two".to_string());
    assert!(snap.contains_path(&"a".to_string()));
    assert!(!snap.contains_path(&"b".to_string()));
    assert_eq!(snap.file_contents(&"a".to_string()), Some(&"one".to_string()));
    assert_eq!(snap.file_contents(&"b".to_string()), None);
    assert_eq!(snap.existing_paths(), vec!["a".to_string(), "a".to_string()]);
}

#[test]
fn builders_replace_their_fields() {
    let d = descriptor(&["app"])
        .with_config_name(vec!["other".to_string()])
        .with_default_format(FileFormat::Ron)
        .with_extra_folders(vec!["f".to_string()])
        .with_extra_files(vec!["x".to_string()])
        .with_config_option(ConfigOption::default().with_allow_dot_prefix(false))
        .with_project_path(ProjectPath::new(
            "io".to_string(),
            "org".to_string(),
            "tool".to_string(),
        ));
    assert_eq!(d.config_name, vec!["other".to_string()]);
    assert_eq!(d.default_format, FileFormat::Ron);
    assert_eq!(d.extra_folders, vec!["f".to_string()]);
    assert_eq!(d.extra_files, vec!["x".to_string()]);
    assert!(!d.config_option.allow_dot_prefix);
    assert_eq!(d.project_path.qualifier, "io".to_string());

    let d = d.no_default_format();
    assert_eq!(d.default_format, FileFormat::Toml);

    let p = ProjectPath::new("a".to_string(), "b".to_string(), "c".to_string())
        .with_qualifier("q".to_string())
        .with_organization("o".to_string())
        .with_application("app".to_string());
    assert_eq!(p.qualifier, "q".to_string());
    assert_eq!(p.organization, "o".to_string());
    assert_eq!(p.application, "app".to_string());
}

#[test]
fn default_local_config_file_appends_extension() {
    let d = descriptor(&["app"]);
    assert_eq!(d.default_local_config_file("cwd"), "cwd/app.toml".to_string());
    assert_eq!(d.default_config_file("cwd").unwrap(), "cwd/app.toml".to_string());
}

#[test]
fn extra_file_detected_and_read_end_to_end() {
    let d = ConfigPathMetadata::new(
        ProjectPath::new(
            "org".to_string(),
            "embers-of-the-fire".to_string(),
            "conrig-cfg".to_string(),
        ),
        vec!["conrig-cfg".to_string()],
        FileFormat::Toml,
        vec![],
        vec!["proj/conrig.cfg".to_string()],
        ConfigOption::default(),
    );
    let mut snap = FileSnapshot::new();
    snap.add_file(
        "proj/conrig.cfg.json".to_string(),
        "{ \"id\": 42 }".to_string(),
    );
    let sys = "sys".to_string();
    let existing = snap.existing_paths();
    let raw = d
        .search_config_file_in(Some(&sys), "local", &existing)
        .unwrap();
    assert_eq!(raw.path, Some("proj/conrig.cfg.json".to_string()));
    assert_eq!(raw.file_format, FileFormat::Json);
    let cf = raw.fallback_default("local").unwrap();
    let value: BTreeMap<String, u32> = cf.read(&snap).unwrap();
    let mut expected = BTreeMap::new();
    expected.insert("id".to_string(), 42u32);
    assert_eq!(value, expected);
}

#[test]
fn unresolved_search_falls_back_and_writes_end_to_end() {
    let d = descriptor(&["app"]);
    let snap = FileSnapshot::new();
    let sys = "sys".to_string();
    let raw = d
        .search_config_file_in(Some(&sys), "local", &snap.existing_paths())
        .unwrap();
    assert_eq!(raw.path, None);
    let cf = raw.fallback_default("local").unwrap();
    assert_eq!(cf.path, "local/app.toml".to_string());
    let (value, request) = cf.read_or_new(int_map(), &snap).unwrap();
    assert_eq!(value, int_map());
    let request = request.unwrap();
    assert_eq!(request.path, "local/app.toml".to_string());
    let decoded: BTreeMap<String, u32> = FileFormat::Toml.read_str(&request.contents).unwrap();
    assert_eq!(decoded, int_map());
}

#[test]
fn shortcut_read_or_new_with_snapshot() {
    let d = descriptor(&["app"]);
    let mut snap = FileSnapshot::new();
    snap.add_file("local/app.toml".to_string(), "id = 9\n".to_string());
    // The platform decides whether a system root exists; both outcomes
    // are legitimate here.
    match d.read_or_new(int_map(), "local", &snap) {
        Ok((value, request)) => {
            let mut expected = BTreeMap::new();
            expected.insert("id".to_string(), 9u32);
            assert_eq!(value, expected);
            assert!(request.is_none());
        }
        Err(e) => assert!(matches!(
            e,
            ConrigError::FileSystemError(FileSystemError::NoProjectDirectory)
        )),
    }
}
