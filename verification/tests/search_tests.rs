use conrig::{
    detect_file_format, ConfigOption, ConfigPathMetadata, ConfigType, ConrigError, FileFormat,
    FileSystemError, ProjectPath,
};

fn descriptor(names: &[&str], default_format: FileFormat, option: ConfigOption) -> ConfigPathMetadata {
    ConfigPathMetadata::new(
        ProjectPath::new(
            "org".to_string(),
            "embers-of-the-fire".to_string(),
            "conrig".to_string(),
        ),
        names.iter().map(|n| n.to_string()).collect(),
        default_format,
        vec![],
        vec![],
        option,
    )
}

fn strings(items: &[&str]) -> Vec<String> {
    items.iter().map(|s| s.to_string()).collect()
}

#[test]
fn resolves_local_json_over_default_toml() {
    let d = descriptor(&["app"], FileFormat::Toml, ConfigOption::default());
    let sys = "sys".to_string();
    let existing = strings(&["local/app.json"]);
    let raw = d
        .search_config_file_in(Some(&sys), "local", &existing)
        .unwrap();
    assert_eq!(raw.path, Some("local/app.json".to_string()));
    assert_eq!(raw.file_format, FileFormat::Json);
}

#[test]
fn toml_precedes_json_in_probing() {
    let d = descriptor(&["app"], FileFormat::Toml, ConfigOption::default());
    let sys = "sys".to_string();
    let existing = strings(&["local/app.json", "local/app.toml"]);
    let raw = d
        .search_config_file_in(Some(&sys), "local", &existing)
        .unwrap();
    assert_eq!(raw.path, Some("local/app.toml".to_string()));
    assert_eq!(raw.file_format, FileFormat::Toml);
}

#[test]
fn first_name_found_at_first_root() {
    let option = ConfigOption::default().with_sys_override_local(true);
    let d = descriptor(&["app", "backup"], FileFormat::Toml, option);
    let sys = "sys".to_string();
    let existing = strings(&["sys/app.yml"]);
    let raw = d
        .search_config_file_in(Some(&sys), "local", &existing)
        .unwrap();
    assert_eq!(raw.path, Some("sys/app.yml".to_string()));
    assert_eq!(raw.file_format, FileFormat::Yaml);
}

#[test]
fn dot_prefix_disallowed_never_matches() {
    let option = ConfigOption::default().with_allow_dot_prefix(false);
    let d = descriptor(&["app"], FileFormat::Toml, option);
    let sys = "sys".to_string();
    let existing = strings(&["local/.app.toml", "sys/.app.toml"]);
    let raw = d
        .search_config_file_in(Some(&sys), "local", &existing)
        .unwrap();
    assert_eq!(raw.path, None);
    assert_eq!(raw.file_format, FileFormat::Toml);
}

#[test]
fn dot_prefix_allowed_matches() {
    let d = descriptor(&["app"], FileFormat::Toml, ConfigOption::default());
    let sys = "sys".to_string();
    let existing = strings(&["local/.app.toml"]);
    let raw = d
        .search_config_file_in(Some(&sys), "local", &existing)
        .unwrap();
    assert_eq!(raw.path, Some("local/.app.toml".to_string()));
    assert_eq!(raw.file_format, FileFormat::Toml);
}

#[test]
fn non_dotted_tried_before_dotted() {
    let d = descriptor(&["app"], FileFormat::Toml, ConfigOption::default());
    let sys = "sys".to_string();
    let existing = strings(&["local/.app.toml", "local/app.toml"]);
    let raw = d
        .search_config_file_in(Some(&sys), "local", &existing)
        .unwrap();
    assert_eq!(raw.path, Some("local/app.toml".to_string()));
}

#[test]
fn extra_files_outrun_everything() {
    let d = descriptor(&["app"], FileFormat::Toml, ConfigOption::default())
        .with_extra_files(strings(&["centre/custom"]));
    let sys = "sys".to_string();
    let existing = strings(&["centre/custom.ron", "local/app.toml"]);
    let raw = d
        .search_config_file_in(Some(&sys), "local", &existing)
        .unwrap();
    assert_eq!(raw.path, Some("centre/custom.ron".to_string()));
    assert_eq!(raw.file_format, FileFormat::Ron);
}

#[test]
fn extra_folders_outrun_roots() {
    let d = descriptor(&["app"], FileFormat::Toml, ConfigOption::default())
        .with_extra_folders(strings(&["shared"]));
    let sys = "sys".to_string();
    let existing = strings(&["shared/app.json", "local/app.toml"]);
    let raw = d
        .search_config_file_in(Some(&sys), "local", &existing)
        .unwrap();
    assert_eq!(raw.path, Some("shared/app.json".to_string()));
    assert_eq!(raw.file_format, FileFormat::Json);
}

#[test]
fn local_precedes_sys_by_default() {
    let d = descriptor(&["app"], FileFormat::Toml, ConfigOption::default());
    let sys = "sys".to_string();
    let existing = strings(&["sys/app.toml", "local/app.toml"]);
    let raw = d
        .search_config_file_in(Some(&sys), "local", &existing)
        .unwrap();
    assert_eq!(raw.path, Some("local/app.toml".to_string()));
}

#[test]
fn sys_precedes_local_when_overriding() {
    let option = ConfigOption::default().with_sys_override_local(true);
    let d = descriptor(&["app"], FileFormat::Toml, option);
    let sys = "sys".to_string();
    let existing = strings(&["sys/app.toml", "local/app.toml"]);
    let raw = d
        .search_config_file_in(Some(&sys), "local", &existing)
        .unwrap();
    assert_eq!(raw.path, Some("sys/app.toml".to_string()));
}

#[test]
fn names_tried_in_order() {
    let d = descriptor(&["first", "second"], FileFormat::Toml, ConfigOption::default());
    let sys = "sys".to_string();
    let only_second = strings(&["local/second.toml"]);
    let raw = d
        .search_config_file_in(Some(&sys), "local", &only_second)
        .unwrap();
    assert_eq!(raw.path, Some("local/second.toml".to_string()));
    let both = strings(&["local/second.toml", "local/first.toml"]);
    let raw = d.search_config_file_in(Some(&sys), "local", &both).unwrap();
    assert_eq!(raw.path, Some("local/first.toml".to_string()));
}

#[test]
fn missing_sys_root_is_a_hard_failure() {
    let d = descriptor(&["app"], FileFormat::Toml, ConfigOption::default());
    let existing = strings(&["local/app.toml"]);
    let r = d.search_config_file_in(None, "local", &existing);
    assert!(matches!(
        r,
        Err(ConrigError::FileSystemError(
            FileSystemError::NoProjectDirectory
        ))
    ));
}

#[test]
fn nothing_found_keeps_default_format() {
    let d = descriptor(&["app"], FileFormat::Ron, ConfigOption::default());
    let sys = "sys".to_string();
    let raw = d
        .search_config_file_in(Some(&sys), "local", &vec![])
        .unwrap();
    assert_eq!(raw.path, None);
    assert_eq!(raw.file_format, FileFormat::Ron);
}

#[test]
fn config_sys_type_variants_exist() {
    let option = ConfigOption::default().with_config_sys_type(ConfigType::Preference);
    assert_eq!(option.config_sys_type, ConfigType::Preference);
    assert_eq!(
        ConfigOption::default().config_sys_type,
        ConfigType::Config
    );
}

#[test]
fn detect_literal_fallback_needs_extension() {
    let existing = strings(&["dir/conf.cfg"]);
    let hit = detect_file_format("dir/conf.cfg", FileFormat::Toml, &existing);
    assert_eq!(hit, Some(("dir/conf.cfg".to_string(), FileFormat::Toml)));

    // A bare name is never matched literally.
    let bare = strings(&["dir/conf"]);
    assert_eq!(detect_file_format("dir/conf", FileFormat::Toml, &bare), None);
}

#[test]
fn detect_prefers_appended_extension_over_literal() {
    let existing = strings(&["dir/conf.cfg", "dir/conf.cfg.json"]);
    let hit = detect_file_format("dir/conf.cfg", FileFormat::Toml, &existing);
    assert_eq!(
        hit,
        Some(("dir/conf.cfg.json".to_string(), FileFormat::Json))
    );
}

#[test]
fn detect_bare_name_by_extension() {
    let existing = strings(&["dir/conf.yml"]);
    let hit = detect_file_format("dir/conf", FileFormat::Toml, &existing);
    assert_eq!(hit, Some(("dir/conf.yml".to_string(), FileFormat::Yaml)));
}
