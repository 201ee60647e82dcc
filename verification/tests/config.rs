use phenotype_shared::config::parse::{parse_count, parse_flag};
use phenotype_shared::config::store::env_config_key;
use phenotype_shared::config::tree::flatten;
use phenotype_shared::config::{ConfigSource, ConfigStore, ConfigTree};

#[test]
fn test_set_and_get() {
    let mut config = ConfigStore::new();
    config.set("database_url", "postgres://localhost/test");

    let value = config.get("database_url");
    assert_eq!(value, Some("postgres://localhost/test".to_string()));
}

#[test]
fn test_get_section() {
    let config = ConfigStore::with_values(
        [
            ("database_host".to_string(), "localhost".to_string()),
            ("database_port".to_string(), "5432".to_string()),
            ("cache_host".to_string(), "redis.local".to_string()),
        ]
        .iter()
        .cloned()
        .collect(),
    );

    let db_section = config.get_section("database");
    assert_eq!(db_section.keys().len(), 2);
    assert_eq!(db_section.get("host"), Some("localhost".to_string()));
}

#[test]
fn later_write_wins() {
    let mut config = ConfigStore::new();
    config.set("k", "1");
    config.set("other", "x");
    config.set("k", "2");
    assert_eq!(config.get("k"), Some("2".to_string()));
    assert_eq!(config.get("other"), Some("x".to_string()));
    assert_eq!(config.get("missing"), None);
    let mut keys = config.keys();
    keys.sort();
    assert_eq!(keys, vec!["k".to_string(), "other".to_string()]);
}

#[test]
fn with_values_keeps_last_duplicate() {
    let config = ConfigStore::with_values(vec![
        ("a".to_string(), "1".to_string()),
        ("a".to_string(), "2".to_string()),
    ]);
    assert_eq!(config.get("a"), Some("2".to_string()));
    assert_eq!(config.keys().len(), 1);
}

#[test]
fn flags_and_counts() {
    let config = ConfigStore::with_values(vec![
        ("on".to_string(), "true".to_string()),
        ("off".to_string(), "false".to_string()),
        ("odd".to_string(), "TRUE".to_string()),
        ("n".to_string(), "42".to_string()),
        ("plus".to_string(), "+7".to_string()),
        ("bad".to_string(), "4x".to_string()),
    ]);
    assert_eq!(config.get_bool("on"), Some(true));
    assert_eq!(config.get_bool("off"), Some(false));
    assert_eq!(config.get_bool("odd"), Some(false));
    assert_eq!(config.get_bool("none"), None);
    assert_eq!(config.get_usize("n"), Some(42));
    assert_eq!(config.get_usize("plus"), Some(7));
    assert_eq!(config.get_usize("bad"), None);
    assert_eq!(config.get_usize("none"), None);
}

#[test]
fn count_parsing_matches_std() {
    for s in ["0", "007", "+12", "", "+", "-1", " 1", "18446744073709551615", "18446744073709551616", "99999999999999999999999", "1_000"] {
        assert_eq!(parse_count(s), s.parse::<usize>().ok(), "input {:?}", s);
    }
    for s in ["true", "false", "True", "", "yes"] {
        assert_eq!(parse_flag(s), s.parse::<bool>().unwrap_or(false));
    }
}

#[test]
fn section_strips_underscores() {
    let config = ConfigStore::with_values(vec![
        ("app__name".to_string(), "demo".to_string()),
        ("application".to_string(), "x".to_string()),
        ("other".to_string(), "y".to_string()),
    ]);
    let s = config.get_section("app");
    assert_eq!(s.get("name"), Some("demo".to_string()));
    assert_eq!(s.get("lication"), Some("x".to_string()));
    assert_eq!(s.keys().len(), 2);
}

#[test]
fn env_keys() {
    assert_eq!(env_config_key("APP_DATABASE_URL", "APP_"), Some("database_url".to_string()));
    assert_eq!(env_config_key("APP__X", "APP"), Some("x".to_string()));
    assert_eq!(env_config_key("PATH", "APP_"), None);
    assert_eq!(env_config_key("HOME", ""), Some("home".to_string()));
}

#[test]
fn load_vars_with_prefix() {
    let mut config = ConfigStore::new();
    config.load_vars(
        vec![
            ("APP_DATABASE_URL".to_string(), "pg".to_string()),
            ("PATH".to_string(), "/bin".to_string()),
        ],
        "APP_",
    );
    assert_eq!(config.get("database_url"), Some("pg".to_string()));
    assert_eq!(config.get("path"), None);
    assert_eq!(config.keys().len(), 1);
}

#[test]
fn flatten_nested_document() {
    let tree = ConfigTree::Section(vec![
        (
            Some("database".to_string()),
            ConfigTree::Section(vec![
                (Some("host".to_string()), ConfigTree::Value("localhost".to_string())),
                (Some("port".to_string()), ConfigTree::Number("5432".to_string())),
                (Some("tags".to_string()), ConfigTree::List(vec![ConfigTree::Value("x".to_string())])),
                (Some("none".to_string()), ConfigTree::Null),
            ]),
        ),
        (Some("debug".to_string()), ConfigTree::Bool(true)),
    ]);
    let pairs = flatten(&tree);
    assert_eq!(
        pairs,
        vec![
            ("database_host".to_string(), "localhost".to_string()),
            ("database_port".to_string(), "5432".to_string()),
            ("debug".to_string(), "true".to_string()),
        ]
    );
    let mut config = ConfigStore::new();
    config.set("debug", "false");
    config.load_tree(&tree);
    assert_eq!(config.get("debug"), Some("true".to_string()));
    assert_eq!(config.get_usize("database_port"), Some(5432));
}

#[test]
fn scalar_document_has_empty_key() {
    assert_eq!(flatten(&ConfigTree::Value("v".to_string())), vec![("".to_string(), "v".to_string())]);
    assert!(flatten(&ConfigTree::Null).is_empty());
    assert!(flatten(&ConfigTree::List(vec![ConfigTree::Value("v".to_string())])).is_empty());
}

#[test]
fn config_sources() {
    assert_ne!(ConfigSource::Env, ConfigSource::Default);
    assert_eq!(ConfigSource::File, ConfigSource::File);
}

#[test]
fn json_text_is_flattened_into_the_store() {
    let mut config = ConfigStore::new();
    config.set("debug", "false");
    let text = r#"{"database": {"host": "db", "port": 5432, "tags": [1, 2]}, "debug": true, "none": null}"#;
    assert_eq!(config.load_json_text(text), Ok(()));
    assert_eq!(config.get("database_host"), Some("db".to_string()));
    assert_eq!(config.get("database_port"), Some("5432".to_string()));
    assert_eq!(config.get("debug"), Some("true".to_string()));
    assert_eq!(config.get("database_tags"), None);
    assert_eq!(config.get("none"), None);
    assert_eq!(config.keys().len(), 3);
}

#[test]
fn bad_json_text_leaves_the_store_unchanged() {
    let mut config = ConfigStore::new();
    config.set("a", "1");
    let r = config.load_json_text("{not json");
    let e = r.unwrap_err();
    assert!(e.starts_with("Failed to parse JSON: "));
    assert!(e.len() > "Failed to parse JSON: ".len());
    assert_eq!(config.keys(), vec!["a".to_string()]);
    assert_eq!(config.get("a"), Some("1".to_string()));
}

#[test]
fn yaml_text_is_flattened_into_the_store() {
    let mut config = ConfigStore::new();
    let text = "server:\n  host: example.org\n  port: 8080\n  secure: true\nname: svc\nlist:\n  - 1\n";
    let doc = config.load_yaml_text(text).unwrap();
    assert!(matches!(doc, ConfigTree::Section(_)));
    assert_eq!(config.get("server_host"), Some("example.org".to_string()));
    assert_eq!(config.get("server_port"), Some("8080".to_string()));
    assert_eq!(config.get("server_secure"), Some("true".to_string()));
    assert_eq!(config.get("name"), Some("svc".to_string()));
    assert_eq!(config.get("list"), None);
    assert_eq!(config.keys().len(), 4);
}

#[test]
fn bad_yaml_text_leaves_the_store_unchanged() {
    let mut config = ConfigStore::new();
    config.set("a", "1");
    let e = config.load_yaml_text("- just\n- a list\n").unwrap_err();
    assert!(e.starts_with("Failed to parse YAML: "));
    assert!(e.len() > "Failed to parse YAML: ".len());
    assert_eq!(config.keys(), vec!["a".to_string()]);
}

#[test]
fn yaml_scalars_read_as_text() {
    let tagged = ConfigTree::Tagged(Box::new(ConfigTree::Bool(false)));
    assert_eq!(flatten(&tagged), vec![("".to_string(), "false".to_string())]);
    let doc = ConfigTree::Section(vec![
        (None, ConfigTree::Value("odd key".to_string())),
        (Some("neg".to_string()), ConfigTree::YamlNumber(Some(-42), Some("-42".to_string()))),
        (Some("big".to_string()), ConfigTree::YamlNumber(None, Some("1e20".to_string()))),
        (Some("nothing".to_string()), ConfigTree::YamlNumber(None, None)),
    ]);
    assert_eq!(
        flatten(&doc),
        vec![
            ("".to_string(), "odd key".to_string()),
            ("neg".to_string(), "-42".to_string()),
            ("big".to_string(), "1e20".to_string()),
        ]
    );
}

#[test]
fn yaml_numbers_read_as_integers_then_floats() {
    let mut config = ConfigStore::new();
    let text = "a: 1.0\nb: 1e20\nc: .inf\nd: 18446744073709551615\ne: -7\nf: !custom 3\n";
    config.load_yaml_text(text).unwrap();
    assert_eq!(config.get("a"), Some("1".to_string()));
    assert_eq!(config.get("b"), Some("100000000000000000000".to_string()));
    assert_eq!(config.get("c"), Some("inf".to_string()));
    assert_eq!(config.get("d"), Some((u64::MAX as f64).to_string()));
    assert_eq!(config.get("e"), Some("-7".to_string()));
    assert_eq!(config.get("f"), Some("3".to_string()));
}

#[test]
fn yaml_non_string_keys_read_as_empty() {
    let mut config = ConfigStore::new();
    config.load_yaml_text("outer:\n  1: one\n").unwrap();
    assert_eq!(config.get("outer_"), Some("one".to_string()));
}
