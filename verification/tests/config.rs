use timetrackd::config::{
    apply_config, config_file_name, default_config, join_path, load_config, parse_database_type,
    parse_path, parse_u64, ConfigValue, DatabaseType, LoadConfigError,
};

#[test]
fn defaults_hang_off_the_home_directory() {
    let c = default_config("/home/user");
    assert_eq!(c.database_path, "/home/user/.timetrackd.db");
    assert_eq!(c.database_type, DatabaseType::Sqlite);
    assert_eq!(c.sample_interval, 5);
}

#[test]
fn path_join_inserts_one_separator() {
    assert_eq!(join_path("/home/user", "timetrackd.toml"), "/home/user/timetrackd.toml");
    assert_eq!(join_path("/", "x"), "/x");
    assert_eq!(join_path("a/", "b"), "a/b");
    assert_eq!(join_path("", "b"), "b");
    assert_eq!(config_file_name(), "timetrackd.toml");
}

#[test]
fn value_parsers_accept_the_right_shapes() {
    assert_eq!(parse_u64(&ConfigValue::Integer(10)), Some(10));
    assert_eq!(parse_u64(&ConfigValue::Integer(0)), Some(0));
    assert_eq!(parse_u64(&ConfigValue::Integer(-1)), None);
    assert_eq!(parse_u64(&ConfigValue::Text("5".to_string())), None);
    assert_eq!(parse_u64(&ConfigValue::Other), None);

    assert_eq!(parse_path(&ConfigValue::Text("/tmp/db".to_string())), Some("/tmp/db".to_string()));
    assert_eq!(parse_path(&ConfigValue::Integer(5)), None);

    assert_eq!(
        parse_database_type(&ConfigValue::Text("sqlite".to_string())),
        Some(DatabaseType::Sqlite)
    );
    assert_eq!(parse_database_type(&ConfigValue::Text("mysql".to_string())), None);
    assert_eq!(parse_database_type(&ConfigValue::Integer(1)), None);
}

#[test]
fn file_overrides_every_field() {
    let text = "sample_interval = 10\ndatabase_path = \"/tmp/track.db\"\ndatabase_type = \"sqlite\"\n";
    let c = load_config(text, default_config("/home/user")).unwrap();
    assert_eq!(c.sample_interval, 10);
    assert_eq!(c.database_path, "/tmp/track.db");
    assert_eq!(c.database_type, DatabaseType::Sqlite);
}

#[test]
fn empty_file_keeps_the_defaults() {
    let c = load_config("", default_config("/home/user")).unwrap();
    assert_eq!(c.sample_interval, 5);
    assert_eq!(c.database_path, "/home/user/.timetrackd.db");
    assert_eq!(c.database_type, DatabaseType::Sqlite);
}

#[test]
fn unknown_keys_are_ignored() {
    let c = load_config("other = \"x\"\n", default_config("/h")).unwrap();
    assert_eq!(c.sample_interval, 5);
}

#[test]
fn zero_interval_is_allowed() {
    let c = load_config("sample_interval = 0\n", default_config("/h")).unwrap();
    assert_eq!(c.sample_interval, 0);
}

#[test]
fn negative_interval_is_a_load_error() {
    let r = load_config("sample_interval = -1\n", default_config("/h"));
    assert!(matches!(
        r,
        Err(LoadConfigError::ParseError(m)) if m == "sample_interval has to be a positive integer"
    ));
}

#[test]
fn non_integer_interval_is_a_load_error() {
    let r = load_config("sample_interval = \"soon\"\n", default_config("/h"));
    assert!(matches!(r, Err(LoadConfigError::ParseError(_))));
}

#[test]
fn non_string_path_is_a_load_error() {
    let r = load_config("database_path = 5\n", default_config("/h"));
    assert!(matches!(
        r,
        Err(LoadConfigError::ParseError(m)) if m == "database_path must be a filesystem path"
    ));
}

#[test]
fn unknown_database_type_is_a_load_error() {
    let r = load_config("database_type = \"mysql\"\n", default_config("/h"));
    assert!(matches!(
        r,
        Err(LoadConfigError::ParseError(m)) if m == "database_type must be 'sqlite'"
    ));
}

#[test]
fn malformed_toml_is_a_load_error() {
    let r = load_config("this is [[[ not toml", default_config("/h"));
    assert!(matches!(r, Err(LoadConfigError::TomlError(_))));
}

#[test]
fn interval_is_validated_before_the_other_keys() {
    let entries = vec![
        ("database_type".to_string(), ConfigValue::Integer(1)),
        ("sample_interval".to_string(), ConfigValue::Text("x".to_string())),
    ];
    let r = apply_config(default_config("/h"), &entries);
    assert!(matches!(
        r,
        Err(LoadConfigError::ParseError(m)) if m == "sample_interval has to be a positive integer"
    ));
}
