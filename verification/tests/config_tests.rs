use natbreak::config::{config_file_for, config_file_in_home, Config, ConfigError};
use natbreak::helper_config::{helper_config_file_for, Config as HelperConfig};
use natbreak::paths::HomeDir;
use natbreak::websocket::websocket_target;
use natbreak::yaml::{YamlDocument, YamlItem};

#[test]
fn compute_websocket_url() {
    assert_eq!(
        Config::compute_websocket_url("http://api.devnet.solana.com"),
        "ws://api.devnet.solana.com/".to_string()
    );

    assert_eq!(
        Config::compute_websocket_url("https://api.devnet.solana.com"),
        "wss://api.devnet.solana.com/".to_string()
    );

    assert_eq!(
        Config::compute_websocket_url("http://example.com:8899"),
        "ws://example.com:8900/".to_string()
    );
    assert_eq!(
        Config::compute_websocket_url("https://example.com:1234"),
        "wss://example.com:1235/".to_string()
    );

    assert_eq!(Config::compute_websocket_url("garbage"), String::new());
}

#[test]
fn websocket_url_keeps_the_scheme_case_insensitive() {
    assert_eq!(
        Config::compute_websocket_url("HTTPS://Example.com:80"),
        "wss://example.com:81/".to_string()
    );
}

#[test]
fn websocket_url_refuses_the_last_port() {
    assert_eq!(Config::try_compute_websocket_url("http://example.com:65535"), None);
    assert_eq!(
        Config::try_compute_websocket_url("http://example.com:65534"),
        Some("ws://example.com:65535/".to_string())
    );
    assert_eq!(Config::try_compute_websocket_url("garbage"), Some(String::new()));
}

#[test]
fn test_load_config() {
    let path = helper_config_file_for("/home/sniffer");
    assert_eq!(path, "/home/sniffer/.config/sniffer/config/config.yml");
    let config = HelperConfig::load("assistant_ip: 158.247.233.22\n".to_string());
    println!("config {:?}", config.unwrap())
}

#[test]
fn helper_config_reads_assistant_ip() {
    let config = HelperConfig::load("assistant_ip: 10.0.0.7\nother: 3\n".to_string()).unwrap();
    assert_eq!(config.assistant_ip, "10.0.0.7");
}

#[test]
fn greeting_is_fixed() {
    assert_eq!(natbreak::greeting::hello_world(), "hello world!");
}

#[test]
fn helper_config_reports_missing_field() {
    match HelperConfig::load("assistant: 10.0.0.7\n".to_string()) {
        Err(ConfigError::MissingField(f)) => assert_eq!(f, "assistant_ip"),
        other => panic!("unexpected {:?}", other),
    }
}

#[test]
fn config_save_then_load_gives_back_the_config() {
    let config = Config {
        keypair_path: "/home/a/.config/doorbell/id.json".to_string(),
        data_path: "/home/a/.config/doorbell/data".to_string(),
        nick_name: "no_123456".to_string(),
        address: "127.0.0.1:9898".to_string(),
    };
    let text = config.save().unwrap();
    assert_eq!(
        text,
        "keypair_path: /home/a/.config/doorbell/id.json\ndata_path: /home/a/.config/doorbell/data\nnick_name: no_123456\naddress: 127.0.0.1:9898\n"
    );
    let back = Config::load(&text).unwrap();
    assert_eq!(back.keypair_path, config.keypair_path);
    assert_eq!(back.data_path, config.data_path);
    assert_eq!(back.nick_name, config.nick_name);
    assert_eq!(back.address, config.address);
}

#[test]
fn config_load_reports_first_missing_field() {
    match Config::load("nick_name: x\naddress: y\n") {
        Err(ConfigError::MissingField(f)) => assert_eq!(f, "keypair_path"),
        other => panic!("unexpected {:?}", other),
    }
    match Config::load("keypair_path: a\ndata_path: b\nnick_name: c\n") {
        Err(ConfigError::MissingField(f)) => assert_eq!(f, "address"),
        other => panic!("unexpected {:?}", other),
    }
}

#[test]
fn config_load_reports_yaml_errors() {
    match Config::load("key: [unclosed\n") {
        Err(ConfigError::Yaml(message)) => assert!(!message.is_empty()),
        other => panic!("unexpected {:?}", other),
    }
}

#[test]
fn config_load_reads_numbers_as_text() {
    let config = Config::load("keypair_path: a\ndata_path: b\nnick_name: 123\naddress: c\n").unwrap();
    assert_eq!(config.nick_name, "123");
}

#[test]
fn default_config_lives_under_home() {
    let config = Config::default_for("/home/alice");
    assert_eq!(config.keypair_path, "/home/alice/.config/doorbell/id.json");
    assert_eq!(config.data_path, "/home/alice/.config/doorbell/data");
    assert_eq!(config.nick_name, "no_123456");
    assert_eq!(config.address, "127.0.0.1:9898");
    let config = Config::default_for("/home/bob/");
    assert_eq!(config.keypair_path, "/home/bob/.config/doorbell/id.json");
}

#[test]
fn default_config_in_a_found_home() {
    let config = Config::default_in_home(&HomeDir::Found("/home/carol".to_string()));
    assert_eq!(config.keypair_path, "/home/carol/.config/doorbell/id.json");
    assert_eq!(config.data_path, "/home/carol/.config/doorbell/data");
}

#[test]
fn config_load_skips_unknown_fields_of_any_kind() {
    let text = "keypair_path: a\nextra:\n  - 1\n  - 2\nnested:\n  x: y\ndata_path: b\nnick_name: c\naddress: d\n";
    let config = Config::load(text).unwrap();
    assert_eq!(config.keypair_path, "a");
    assert_eq!(config.address, "d");
    let helper = HelperConfig::load("assistant_ip: 1.2.3.4\nport: 9527\nlist: [1, 2]\n".to_string()).unwrap();
    assert_eq!(helper, HelperConfig { assistant_ip: "1.2.3.4".to_string() });
}

#[test]
fn config_load_refuses_duplicates_and_compound_values() {
    assert!(matches!(Config::load("keypair_path: a\nkeypair_path: b\n"), Err(ConfigError::Yaml(_))));
    match Config::load("keypair_path: [a]\ndata_path: b\nnick_name: c\naddress: d\n") {
        Err(ConfigError::InvalidType(f)) => assert_eq!(f, "keypair_path"),
        other => panic!("unexpected {:?}", other),
    }
    match Config::load("? [a]\n: b\n") {
        Err(ConfigError::InvalidKey) => {},
        other => panic!("unexpected {:?}", other),
    }
    assert!(matches!(Config::load("just text\n"), Err(ConfigError::NotAStruct)));
}

#[test]
fn config_load_reads_a_sequence_in_field_order() {
    let config = Config::load("- k\n- d\n- n\n- a\n").unwrap();
    assert_eq!(config.keypair_path, "k");
    assert_eq!(config.address, "a");
    assert!(matches!(Config::load("- k\n- d\n"), Err(ConfigError::InvalidLength(2))));
    match HelperConfig::load("- [x]\n".to_string()) {
        Err(ConfigError::InvalidType(f)) => assert_eq!(f, "assistant_ip"),
        other => panic!("unexpected {:?}", other),
    }
}

#[test]
fn config_load_reads_booleans_as_text() {
    let config = Config::load("keypair_path: true\ndata_path: b\nnick_name: c\naddress: d\n").unwrap();
    assert_eq!(config.keypair_path, "true");
}

#[test]
fn config_from_document_reads_parsed_entries() {
    let doc = YamlDocument::Mapping(vec![
        (YamlItem::Str("assistant_ip".to_string()), YamlItem::Str("9.9.9.9".to_string())),
        (YamlItem::Number("1".to_string()), YamlItem::Compound),
    ]);
    assert_eq!(HelperConfig::from_document(&doc).unwrap().assistant_ip, "9.9.9.9");
    let doc = YamlDocument::Mapping(vec![
        (YamlItem::Str("assistant_ip".to_string()), YamlItem::Str("9.9.9.9".to_string())),
        (YamlItem::Str("assistant_ip".to_string()), YamlItem::Str("8.8.8.8".to_string())),
    ]);
    assert!(matches!(HelperConfig::from_document(&doc), Err(ConfigError::DuplicateField(_))));
    assert!(matches!(HelperConfig::from_document(&YamlDocument::Other), Err(ConfigError::NotAStruct)));
    match HelperConfig::from_document(&YamlDocument::Mapping(vec![])) {
        Err(ConfigError::MissingField(f)) => assert_eq!(f, "assistant_ip"),
        other => panic!("unexpected {:?}", other),
    }
}

#[test]
fn config_file_path_under_home() {
    assert_eq!(config_file_for("/root"), "/root/.config/doorbell/config/config.yml");
    assert!(matches!(config_file_in_home(&HomeDir::Missing), Ok(None)));
    match config_file_in_home(&HomeDir::Found("/u".to_string())) {
        Ok(Some(p)) => assert_eq!(p, "/u/.config/doorbell/config/config.yml"),
        other => panic!("unexpected {:?}", other),
    }
}

#[test]
fn websocket_target_picks_scheme_and_port() {
    assert_eq!(websocket_target("https", Some(1234)), Some(("wss", Some(1235))));
    assert_eq!(websocket_target("HtTpS", None), Some(("wss", None)));
    assert_eq!(websocket_target("http", Some(8899)), Some(("ws", Some(8900))));
    assert_eq!(websocket_target("ftp", None), Some(("ws", None)));
    assert_eq!(websocket_target("http", Some(65535)), None);
}

#[test]
fn helper_config_with_extra_entries_loads_the_same() {
    let plain = HelperConfig::load("assistant_ip: a\n".to_string()).unwrap();
    let extra = HelperConfig::load("port: 9527\nassistant_ip: a\nmore: {x: [1, 2]}\n".to_string()).unwrap();
    assert_eq!(plain, extra);
    assert_eq!(plain, HelperConfig { assistant_ip: "a".to_string() });
}
