use bruss_config::value::TomlValue;
use bruss_config::DBConfig;
use mongodb::options::ServerAddress;

fn db_table(host: &str, user: &str, password: &str) -> Vec<(String, TomlValue)> {
    vec![
        ("host".to_string(), TomlValue::Str(host.to_string())),
        ("db".to_string(), TomlValue::Str("bruss".to_string())),
        ("user".to_string(), TomlValue::Str(user.to_string())),
        ("password".to_string(), TomlValue::Str(password.to_string())),
    ]
}

#[test]
fn test_connection_options_address_and_credentials() {
    let config = DBConfig::from_table(&db_table("localhost", "u", "p")).unwrap();
    let options = config.gen_mongodb_options();
    assert_eq!(options.hosts.len(), 1);
    match &options.hosts[0] {
        ServerAddress::Tcp { host, port } => {
            assert_eq!(host, "localhost");
            assert_eq!(*port, None);
        }
        other => panic!("expected a TCP address, got {:?}", other),
    }
    let credential = options.credential.expect("credentials are set");
    assert_eq!(credential.username.as_deref(), Some("u"));
    assert_eq!(credential.password.as_deref(), Some("p"));
}

#[test]
fn test_connection_options_twice_equal_and_independent() {
    let config = DBConfig::from_table(&db_table("localhost", "u", "p")).unwrap();
    let first = config.gen_mongodb_options();
    let second = config.gen_mongodb_options();
    assert_eq!(first, second);
    // the two values are independently owned: dropping one leaves the
    // other intact
    drop(first);
    let credential = second.credential.expect("credentials are set");
    assert_eq!(credential.username.as_deref(), Some("u"));
}

#[test]
fn test_connection_options_with_port() {
    let mut table = db_table("db1", "a", "b");
    table.push(("port".to_string(), TomlValue::Int(27018)));
    let config = DBConfig::from_table(&table).unwrap();
    let options = config.gen_mongodb_options();
    match &options.hosts[0] {
        ServerAddress::Tcp { host, port } => {
            assert_eq!(host, "db1");
            assert_eq!(*port, Some(27018));
        }
        other => panic!("expected a TCP address, got {:?}", other),
    }
    assert_eq!(config.get_db(), "bruss");
}

#[test]
fn test_client_factory_binds_values() {
    let table = vec![
        ("secret".to_string(), TomlValue::Str("s".to_string())),
        ("base_url".to_string(), TomlValue::Str("http://x".to_string())),
    ];
    let config = bruss_config::TTConfig::from_table(&table).unwrap();
    let first = config.client();
    let second = config.client();
    assert_eq!(first.base_url(), "http://x");
    assert_eq!(first.secret(), "s");
    assert_eq!(first.base_url(), second.base_url());
    assert_eq!(first.secret(), second.secret());
}
