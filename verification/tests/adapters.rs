use phenotype_shared::adapters::http::{is_visible_ascii, parse_method, validate_request, HttpMethod};
use phenotype_shared::adapters::postgres::{classify_db_error, DbErrorKind, EntityTable};
use phenotype_shared::adapters::redis::{deleted_any, ttl_seconds};
use phenotype_shared::adapters::{HttpClientConfig, PostgresConfig, RedisConfig};
use std::time::Duration;

#[test]
fn http_client_test_default_config() {
    let config = HttpClientConfig::default();
    assert_eq!(config.timeout, Duration::from_secs(30));
    assert!(config.user_agent.is_some());
}

#[test]
fn repository_test_default_config() {
    let config = PostgresConfig::default();
    assert_eq!(config.host, "localhost");
    assert_eq!(config.port, 5432);
}

#[test]
fn cache_test_default_config() {
    let config = RedisConfig::default();
    assert_eq!(config.url, "redis://127.0.0.1:6379");
    assert_eq!(config.pool_size, 16);
}

#[test]
fn default_configs_in_full() {
    let http = HttpClientConfig::default();
    assert_eq!(http.connect_timeout, Duration::from_secs(10));
    assert_eq!(http.max_retries, 3);
    assert_eq!(http.effective_user_agent(), "phenotype-http-adapter/0.1.0");
    let bare = HttpClientConfig { user_agent: None, ..http };
    assert_eq!(bare.effective_user_agent(), "phenotype-http-adapter");
    let pg = PostgresConfig::default();
    assert_eq!(pg.user, "postgres");
    assert_eq!(pg.password, "postgres");
    assert_eq!(pg.database, "phenotype");
    assert_eq!(pg.max_size, 16);
    assert_eq!(pg.min_idle, None);
    assert_eq!(pg.connect_timeout_secs, 30);
    let redis = RedisConfig::default();
    assert_eq!(redis.connect_timeout, Duration::from_secs(5));
    assert_eq!(redis.read_timeout, Duration::from_secs(3));
    assert_eq!(redis.write_timeout, Duration::from_secs(3));
}

#[test]
fn methods_are_read_in_any_case() {
    assert_eq!(parse_method("get"), Ok(HttpMethod::Get));
    assert_eq!(parse_method("Post"), Ok(HttpMethod::Post));
    assert_eq!(parse_method("OPTIONS"), Ok(HttpMethod::Options));
    assert_eq!(parse_method("fetch"), Err("Unknown HTTP method: FETCH".to_string()));
}

#[test]
fn ttl_and_delete_replies() {
    assert_eq!(ttl_seconds(-2), None);
    assert_eq!(ttl_seconds(-1), None);
    assert_eq!(ttl_seconds(0), Some(0));
    assert_eq!(ttl_seconds(60), Some(60));
    assert!(deleted_any(1));
    assert!(!deleted_any(0));
}

#[test]
fn database_errors_are_classified() {
    assert_eq!(
        classify_db_error("ERROR: duplicate key value violates unique constraint"),
        DbErrorKind::AlreadyExists
    );
    assert_eq!(classify_db_error("query returned no rows"), DbErrorKind::NotFound);
    assert_eq!(classify_db_error("connection reset"), DbErrorKind::Other);
    assert_eq!(classify_db_error(""), DbErrorKind::Other);
}

#[test]
fn entity_table_statements() {
    let t = EntityTable::with_default_table();
    assert_eq!(t.table_name, "entities");
    assert_eq!(
        t.select_by_id_sql(),
        "SELECT id, entity_type, payload, created_at, updated_at, version FROM entities WHERE id = $1"
    );
    assert_eq!(t.delete_by_id_sql(), "DELETE FROM entities WHERE id = $1");
    assert_eq!(t.exists_sql(), "SELECT 1 FROM entities WHERE id = $1 LIMIT 1");
    assert_eq!(t.count_sql(), "SELECT COUNT(*) FROM entities");
    assert_eq!(
        t.create_index_sql(),
        "CREATE INDEX IF NOT EXISTS entities_entity_type_idx ON entities(entity_type)"
    );
    let custom = EntityTable::new("agents");
    assert_eq!(
        custom.find_by_field_sql("entity_type"),
        "SELECT id, entity_type, payload, created_at, updated_at, version FROM agents WHERE entity_type = $1"
    );
    assert_eq!(
        custom.find_all_sql(),
        "SELECT id, entity_type, payload, created_at, updated_at, version FROM agents ORDER BY created_at DESC LIMIT $1 OFFSET $2"
    );
    assert!(custom.create_table_sql().contains("CREATE TABLE IF NOT EXISTS agents ("));
    assert!(custom.upsert_sql().contains("INSERT INTO agents (id, entity_type"));
}

#[test]
fn requests_are_validated_before_they_are_built() {
    let ok = vec![
        ("Content-Type".to_string(), "application/json".to_string()),
        ("x-trace".to_string(), "abc 123".to_string()),
    ];
    assert_eq!(validate_request("post", &ok), Ok(HttpMethod::Post));
    assert_eq!(validate_request("get", &Vec::new()), Ok(HttpMethod::Get));
    assert_eq!(validate_request("fetch", &ok), Err("Unknown HTTP method: FETCH".to_string()));

    let bad_name = vec![
        ("good".to_string(), "v".to_string()),
        ("bad name".to_string(), "v".to_string()),
    ];
    assert_eq!(
        validate_request("GET", &bad_name),
        Err("Invalid header name: invalid HTTP header name".to_string())
    );

    let bad_value = vec![("x-a".to_string(), "line\nbreak".to_string())];
    assert_eq!(
        validate_request("GET", &bad_value),
        Err("Invalid header value: failed to parse header value".to_string())
    );
    let long_name = vec![("a".repeat(65536), "v".to_string())];
    assert!(validate_request("GET", &long_name).is_err());
    let edge = vec![("a".repeat(65535), "tab\there é".to_string())];
    assert_eq!(validate_request("GET", &edge), Ok(HttpMethod::Get));
    let non_ascii_name = vec![("é".to_string(), "v".to_string())];
    assert!(validate_request("GET", &non_ascii_name).is_err());
    let del = vec![("x".to_string(), "a\u{7f}".to_string())];
    assert!(validate_request("GET", &del).is_err());

    // The method is checked first, and the name of a header before its value.
    assert_eq!(validate_request("nope", &bad_name), Err("Unknown HTTP method: NOPE".to_string()));
    let both = vec![("bad name".to_string(), "line\nbreak".to_string())];
    assert!(validate_request("GET", &both).unwrap_err().starts_with("Invalid header name: "));
}

#[test]
fn response_headers_read_only_when_visible() {
    assert!(is_visible_ascii(b"text/html; charset=utf-8"));
    assert!(is_visible_ascii(b"a\tb"));
    assert!(is_visible_ascii(b""));
    assert!(!is_visible_ascii(b"caf\xc3\xa9"));
    assert!(!is_visible_ascii(b"a\x7f"));
    assert!(!is_visible_ascii(b"a\nb"));
}
