use bruss_config::{BrussConfig, DecodeError, RoutingType};

fn full_document() -> String {
    [
        "[db]",
        "host = \"db1\"",
        "db = \"bruss\"",
        "user = \"a\"",
        "password = \"b\"",
        "",
        "[tt]",
        "secret = \"s\"",
        "base_url = \"http://x\"",
        "",
        "[routing]",
        "host = \"r\"",
        "url_bus = \"u1\"",
        "url_rail = \"u2\"",
        "get_trips = true",
        "",
        "[api]",
    ]
    .join("\n")
}

#[test]
fn test_end_to_end_minimal() {
    let config = BrussConfig::from_toml_str(&full_document()).unwrap();
    assert_eq!(config.db.get_db(), "bruss");
    assert!(config.routing.exit_on_err);
    assert_eq!(config.api.default_limit, 20);
    assert_eq!(config.routing.host, "r");
    assert_eq!(config.routing.url_bus, "u1");
    assert_eq!(config.routing.url_rail, "u2");
    assert!(config.routing.get_trips);
    let client = config.tt.client();
    assert_eq!(client.base_url(), "http://x");
    assert_eq!(client.secret(), "s");
}

#[test]
fn test_defaults_applied() {
    let config = BrussConfig::from_toml_str(&full_document()).unwrap();
    assert!(config.routing.exit_on_err);
    assert!(config.routing.skip_routing_types.is_empty());
    assert!(!config.routing.deep_trip_check);
    assert!(!config.routing.dry_run);
    assert_eq!(config.routing.port, None);
    assert_eq!(config.routing.parallel_downloads, None);
    assert_eq!(config.routing.filter_area, None);
    assert!(config.routing.filter_area_type.is_none());
    assert!(config.routing.filter_code.is_none());
    assert_eq!(config.routing.max_trip_requests, None);
    assert_eq!(config.api.default_limit, 20);
    assert_eq!(config.api.max_rt_age, 0);
    assert_eq!(config.api.cors_allowed_origin, None);
    assert_eq!(config.api.cors_allowed_methods, None);
    assert_eq!(config.api.cors_allowed_headers, None);
    assert_eq!(config.api.cors_allow_credentials, None);
}

#[test]
fn test_explicit_values_override_defaults() {
    let text = full_document()
        + "\n"
        + "default_limit = 50\n"
        + "max_rt_age = 7\n"
        + "cors_allowed_origin = \"*\"\n"
        + "cors_allowed_methods = [\"GET\", \"POST\", \"GET\"]\n"
        + "cors_allow_credentials = true\n";
    let config = BrussConfig::from_toml_str(&text).unwrap();
    assert_eq!(config.api.default_limit, 50);
    assert_eq!(config.api.max_rt_age, 7);
    assert_eq!(config.api.cors_allowed_origin.as_deref(), Some("*"));
    // a list keeps order and multiplicity; only set-typed fields deduplicate
    assert_eq!(
        config.api.cors_allowed_methods,
        Some(vec!["GET".to_string(), "POST".to_string(), "GET".to_string()])
    );
    assert_eq!(config.api.cors_allow_credentials, Some(true));
}

#[test]
fn test_missing_required_field_is_decode_error() {
    let text = full_document().replace("host = \"db1\"\n", "");
    let err = BrussConfig::from_toml_str(&text).unwrap_err();
    assert!(matches!(err, DecodeError::MissingField(ref f) if f == "db.host"));
}

#[test]
fn test_missing_section_is_decode_error() {
    let text = full_document().replace("[tt]", "[tt2]");
    let err = BrussConfig::from_toml_str(&text).unwrap_err();
    assert!(matches!(err, DecodeError::MissingField(ref f) if f == "tt"));
}

#[test]
fn test_missing_get_trips_is_decode_error() {
    let text = full_document().replace("get_trips = true\n", "");
    let err = BrussConfig::from_toml_str(&text).unwrap_err();
    assert!(matches!(err, DecodeError::MissingField(ref f) if f == "routing.get_trips"));
}

#[test]
fn test_wrong_type_is_decode_error() {
    let text = full_document().replace("get_trips = true", "get_trips = \"yes\"");
    let err = BrussConfig::from_toml_str(&text).unwrap_err();
    assert!(matches!(err, DecodeError::WrongType(ref f) if f == "routing.get_trips"));
}

#[test]
fn test_port_out_of_range_is_decode_error() {
    let text = full_document().replace("host = \"db1\"", "host = \"db1\"\nport = 70000");
    let err = BrussConfig::from_toml_str(&text).unwrap_err();
    assert!(matches!(err, DecodeError::WrongType(ref f) if f == "db.port"));
}

#[test]
fn test_port_in_range_is_kept() {
    let text = full_document().replace("host = \"r\"", "host = \"r\"\nport = 8080");
    let config = BrussConfig::from_toml_str(&text).unwrap();
    assert_eq!(config.routing.port, Some(8080));
}

#[test]
fn test_negative_max_rt_age_is_decode_error() {
    let text = full_document() + "\nmax_rt_age = -1\n";
    let err = BrussConfig::from_toml_str(&text).unwrap_err();
    assert!(matches!(err, DecodeError::WrongType(ref f) if f == "api.max_rt_age"));
}

#[test]
fn test_syntax_error() {
    let err = BrussConfig::from_toml_str("db = [").unwrap_err();
    assert!(matches!(err, DecodeError::Syntax(_)));
}

#[test]
fn test_routing_set_deduplicates() {
    let text = full_document().replace(
        "get_trips = true",
        "get_trips = true\nskip_routing_types = [\"bus\", \"bus\", \"rail\"]",
    );
    let config = BrussConfig::from_toml_str(&text).unwrap();
    let skip = &config.routing.skip_routing_types;
    assert_eq!(skip.len(), 2);
    assert!(skip.contains(&RoutingType::Bus));
    assert!(skip.contains(&RoutingType::Rail));
}

#[test]
fn test_unknown_routing_type_is_decode_error() {
    let text = full_document().replace(
        "get_trips = true",
        "get_trips = true\nskip_routing_types = [\"boat\"]",
    );
    let err = BrussConfig::from_toml_str(&text).unwrap_err();
    assert!(matches!(err, DecodeError::WrongType(ref f) if f == "routing.skip_routing_types"));
}

#[test]
fn test_filter_sets_deduplicate() {
    let text = full_document().replace(
        "get_trips = true",
        "get_trips = true\nfilter_area = [1, 2, 2, 3]\nfilter_area_type = [\"urban\", \"extraurban\", \"urban\"]\nfilter_code = [\"a\", \"b\", \"a\"]",
    );
    let config = BrussConfig::from_toml_str(&text).unwrap();
    assert_eq!(config.routing.filter_area, Some(vec![1, 2, 3]));
    assert_eq!(config.routing.filter_area_type.as_ref().unwrap().len(), 2);
    assert_eq!(
        config.routing.filter_code,
        Some(vec!["a".to_string(), "b".to_string()])
    );
}

#[test]
fn test_unknown_keys_are_ignored() {
    let text = full_document()
        + "\nextra_api_key = 9\n[unknown_section]\nx = \"y\"\nf = 1.25\n";
    let config = BrussConfig::from_toml_str(&text).unwrap();
    assert_eq!(config.db.get_db(), "bruss");
}

#[test]
fn test_float_in_typed_field_is_decode_error() {
    let text = full_document() + "\ndefault_limit = 1.5\n";
    let err = BrussConfig::from_toml_str(&text).unwrap_err();
    assert!(matches!(err, DecodeError::WrongType(ref f) if f == "api.default_limit"));
}

#[test]
fn test_error_description() {
    let text = full_document().replace("secret = \"s\"\n", "");
    let err = BrussConfig::from_toml_str(&text).unwrap_err();
    assert_eq!(err.description(), "tt.secret");
}

#[test]
fn test_default_helpers() {
    assert!(bruss_config::get_true());
    assert_eq!(bruss_config::get_default_api_default_limit(), 20);
    assert_eq!(bruss_config::get_default_api_max_rt_age(), 0);
}

#[test]
fn test_parse_error_wraps_decode_error() {
    let err = BrussConfig::from_toml_str("").unwrap_err();
    let wrapped = bruss_config::ParseError::from(err);
    assert!(matches!(wrapped, bruss_config::ParseError::Decode(_)));
}

#[test]
fn test_parse_error_wraps_io_error() {
    let io = std::io::Error::new(std::io::ErrorKind::NotFound, "no such file");
    let wrapped = bruss_config::ParseError::from(io);
    assert!(matches!(wrapped, bruss_config::ParseError::IO(_)));
}

#[test]
fn test_non_table_root_is_syntax_error() {
    // the parser's reserved datetime encoding turns this one-key document
    // into a bare datetime at the root instead of a table
    let text = "\"$__toml_private_datetime\" = \"1979-05-27T07:32:00Z\"";
    let err = BrussConfig::from_toml_str(text).unwrap_err();
    assert!(matches!(err, DecodeError::Syntax(ref m) if m == "document root is not a table"));
}
