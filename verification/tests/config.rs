use sofie::config::Config;
use sofie::config::DEFAULT_INTERFACE;
use sofie::config::DEFAULT_PORT;
use sofie::document::config_from_entries;
use sofie::document::parse_config;
use sofie::document::Entry;
use sofie::resolver::resolve;
use sofie::resolver::Origin;
use sofie::resolver::Source;
use sofie::resolver::PARSE_FAILURE;
use sofie::CONFIG;

fn text(value: &str) -> Option<Entry> {
    Some(Entry::Text(value.to_string()))
}

#[test]
fn test_config_file_name() {
    assert_eq!(CONFIG, "sofie.toml");
}

#[test]
fn test_default_config_values() {
    let config = Config::default();
    assert_eq!(config.port(), 8080);
    assert_eq!(config.interface(), "0.0.0.0");
    assert_eq!(DEFAULT_PORT, 8080);
    assert_eq!(DEFAULT_INTERFACE, "0.0.0.0");
}

#[test]
fn test_config_new_keeps_values() {
    let config = Config::new(9090, "127.0.0.1").unwrap();
    assert_eq!(config.port(), 9090);
    assert_eq!(config.interface(), "127.0.0.1");
}

#[test]
fn test_config_new_refuses_empty_interface() {
    assert!(Config::new(8080, "").is_none());
}

#[test]
fn test_config_port_bounds() {
    assert_eq!(Config::new(0, "::1").unwrap().port(), 0);
    assert_eq!(Config::new(65535, "::1").unwrap().port(), 65535);
}

#[test]
fn test_config_clone_and_eq() {
    let config = Config::new(3000, "10.0.0.1").unwrap();
    let copy = config.clone();
    assert_eq!(config, copy);
    assert_ne!(config, Config::new(3001, "10.0.0.1").unwrap());
    assert_ne!(config, Config::new(3000, "10.0.0.2").unwrap());
}

#[test]
fn test_entries_make_config() {
    let config = config_from_entries(Some(Entry::Integer(9090)), text("0.0.0.0")).unwrap();
    assert_eq!(config.port(), 9090);
    assert_eq!(config.interface(), "0.0.0.0");
}

#[test]
fn test_entries_port_range() {
    assert!(config_from_entries(Some(Entry::Integer(0)), text("a")).is_some());
    assert!(config_from_entries(Some(Entry::Integer(65535)), text("a")).is_some());
    assert!(config_from_entries(Some(Entry::Integer(65536)), text("a")).is_none());
    assert!(config_from_entries(Some(Entry::Integer(-1)), text("a")).is_none());
    assert!(config_from_entries(Some(Entry::Integer(i64::MAX)), text("a")).is_none());
    assert!(config_from_entries(Some(Entry::Integer(i64::MIN)), text("a")).is_none());
}

#[test]
fn test_entries_missing_or_of_wrong_kind() {
    assert!(config_from_entries(None, text("a")).is_none());
    assert!(config_from_entries(Some(Entry::Integer(80)), None).is_none());
    assert!(config_from_entries(None, None).is_none());
    assert!(config_from_entries(text("80"), text("a")).is_none());
    assert!(config_from_entries(Some(Entry::Float), text("a")).is_none());
    assert!(config_from_entries(Some(Entry::Boolean(true)), text("a")).is_none());
    assert!(config_from_entries(Some(Entry::Integer(80)), Some(Entry::Integer(1))).is_none());
    assert!(config_from_entries(Some(Entry::Integer(80)), Some(Entry::Array)).is_none());
    assert!(config_from_entries(Some(Entry::Integer(80)), Some(Entry::Table)).is_none());
    assert!(config_from_entries(Some(Entry::Integer(80)), Some(Entry::Datetime)).is_none());
    assert!(config_from_entries(Some(Entry::Integer(80)), text("")).is_none());
}

#[test]
fn test_parse_config_reads_both_values() {
    let config = parse_config("port = 9090\ninterface = \"127.0.0.1\"\n").unwrap();
    assert_eq!(config.port(), 9090);
    assert_eq!(config.interface(), "127.0.0.1");
}

#[test]
fn test_parse_config_ignores_other_keys_and_order() {
    let config =
        parse_config("name = \"demo\"\ninterface = \"::1\"\nport = 0x1F90\n[extra]\nport = 1\n")
            .unwrap();
    assert_eq!(config.port(), 8080);
    assert_eq!(config.interface(), "::1");
}

#[test]
fn test_parse_config_refuses_malformed_text() {
    assert!(parse_config("port = ").is_none());
    assert!(parse_config("this is not toml").is_none());
    assert!(parse_config("port = 1\nport = 2\ninterface = \"a\"").is_none());
}

#[test]
fn test_parse_config_refuses_incomplete_documents() {
    assert!(parse_config("").is_none());
    assert!(parse_config("port = 9090").is_none());
    assert!(parse_config("interface = \"0.0.0.0\"").is_none());
    assert!(parse_config("port = \"9090\"\ninterface = \"0.0.0.0\"").is_none());
    assert!(parse_config("port = 9090.0\ninterface = \"0.0.0.0\"").is_none());
    assert!(parse_config("port = true\ninterface = \"0.0.0.0\"").is_none());
    assert!(parse_config("port = 9090\ninterface = 7").is_none());
    assert!(parse_config("port = 9090\ninterface = [\"0.0.0.0\"]").is_none());
    assert!(parse_config("port = 9090\ninterface = 1979-05-27").is_none());
    assert!(parse_config("port = 9090\n[interface]\nname = \"a\"").is_none());
    assert!(parse_config("port = 70000\ninterface = \"0.0.0.0\"").is_none());
    assert!(parse_config("port = -1\ninterface = \"0.0.0.0\"").is_none());
    assert!(parse_config("port = 9090\ninterface = \"\"").is_none());
}

#[test]
fn test_resolve_absent_file_gives_default() {
    let resolution = resolve(&Source::Absent);
    assert_eq!(resolution.config, Config::default());
    assert_eq!(resolution.config.port(), 8080);
    assert_eq!(resolution.config.interface(), "0.0.0.0");
    assert_eq!(resolution.origin, Origin::Absent);
    assert!(resolution.diagnostic().is_none());
}

#[test]
fn test_resolve_unreadable_file_gives_default() {
    let resolution = resolve(&Source::Unreadable);
    assert_eq!(resolution.config, Config::default());
    assert_eq!(resolution.origin, Origin::Unreadable);
    assert!(resolution.diagnostic().is_none());
}

#[test]
fn test_resolve_unparsable_file_gives_default_and_diagnostic() {
    let resolution = resolve(&Source::Text("port = = 1".to_string()));
    assert_eq!(resolution.config, Config::default());
    assert_eq!(resolution.origin, Origin::Unparsable);
    assert_eq!(resolution.diagnostic(), Some("Failed to parse config file"));
    assert_eq!(PARSE_FAILURE, "Failed to parse config file");
}

#[test]
fn test_resolve_incomplete_file_gives_default() {
    let resolution = resolve(&Source::Text("port = 9090".to_string()));
    assert_eq!(resolution.config, Config::default());
    assert_eq!(resolution.origin, Origin::Unparsable);
}

#[test]
fn test_resolve_valid_file_gives_its_values() {
    let source = Source::Text("port = 9090\ninterface = \"127.0.0.1\"".to_string());
    let resolution = resolve(&source);
    assert_eq!(resolution.config.port(), 9090);
    assert_eq!(resolution.config.interface(), "127.0.0.1");
    assert_eq!(resolution.origin, Origin::File);
    assert!(resolution.diagnostic().is_none());
}

#[test]
fn test_resolve_file_equal_to_default_is_still_from_file() {
    let source = Source::Text("port = 8080\ninterface = \"0.0.0.0\"".to_string());
    let resolution = resolve(&source);
    assert_eq!(resolution.config, Config::default());
    assert_eq!(resolution.origin, Origin::File);
}
