use cloudflare_ddns::config::IpType;
use cloudflare_ddns::error::DomainError;
use cloudflare_ddns::settings::Settings;
use cloudflare_ddns::state::{state_key, RecordState, StateStore};
use cloudflare_ddns::store::{
    configs_from_env, initial_configs, interval_or_default, ConfigService, ConfigWatcher, EnvValues,
};

fn env(v6: bool) -> EnvValues {
    EnvValues {
        api_token: Some("token".to_string()),
        zone_id: Some("zone".to_string()),
        record_id: Some("rid".to_string()),
        record_name: Some("v4.example.com".to_string()),
        update_interval: Some("120".to_string()),
        record_id_v6: if v6 { Some("rid6".to_string()) } else { None },
        record_name_v6: if v6 { Some("v6.example.com".to_string()) } else { None },
    }
}

#[test]
fn environment_describes_records() {
    let configs = configs_from_env(&env(true));
    assert_eq!(configs.len(), 2);
    assert_eq!(configs[0].ip_type, IpType::IPv4);
    assert_eq!(configs[0].record_id, "rid");
    assert_eq!(configs[0].update_interval, 120);
    assert_eq!(configs[1].ip_type, IpType::IPv6);
    assert_eq!(configs[1].record_name, "v6.example.com");
    assert_eq!(configs_from_env(&env(false)).len(), 1);
}

#[test]
fn interval_defaults_when_missing_or_not_a_number() {
    assert_eq!(interval_or_default(&None), 300);
    assert_eq!(interval_or_default(&Some("abc".to_string())), 300);
    assert_eq!(interval_or_default(&Some("45".to_string())), 45);
    assert_eq!(interval_or_default(&Some("+7".to_string())), 7);
    assert_eq!(interval_or_default(&Some("-7".to_string())), 300);
    assert_eq!(interval_or_default(&Some("18446744073709551616".to_string())), 300);
}

#[test]
fn empty_environment_gives_the_placeholder() {
    let mut e = env(false);
    e.api_token = None;
    assert!(configs_from_env(&e).is_empty());
    let configs = initial_configs(&e);
    assert_eq!(configs.len(), 1);
    assert_eq!(configs[0].record_name, "your.domain.com");
    assert_eq!(configs[0].update_interval, 300);
}

#[test]
fn cache_lookup_by_family() {
    let mut service = ConfigService::new();
    service.replace_configs(configs_from_env(&env(true)));
    let found = service.get_config_by_ip_type("IPv6").unwrap().unwrap();
    assert_eq!(found.record_name, "v6.example.com");
    assert!(matches!(service.get_config_by_ip_type("ipx"), Err(DomainError::Validation(_))));
    service.replace_configs(configs_from_env(&env(false)));
    assert!(service.get_config_by_ip_type("ipv6").unwrap().is_none());
}

#[test]
fn watcher_reports_each_change_once() {
    let mut watcher = ConfigWatcher::new();
    assert!(!watcher.observe(None));
    assert!(watcher.observe(Some(100)));
    assert!(!watcher.observe(Some(100)));
    assert!(!watcher.observe(Some(90)));
    assert!(watcher.observe(Some(101)));
    watcher.record_own_write(200);
    assert!(!watcher.observe(Some(200)));
    assert!(watcher.observe(Some(201)));
}

#[test]
fn state_store_fields() {
    let key = state_key("test_zone", "test_record");
    assert_eq!(key, "test_zone-test_record");
    let mut store = StateStore::new();
    assert_eq!(store.get_last_ip(key.as_str()), None);
    store.set_last_ip(key.as_str(), "192.168.1.1".to_string());
    assert_eq!(store.get_last_ip(key.as_str()), Some("192.168.1.1".to_string()));
    assert_eq!(store.get_last_update_time(key.as_str()), None);
    store.set_last_update_time(key.as_str(), 77);
    assert_eq!(store.get_last_update_time(key.as_str()), Some(77));
    assert_eq!(store.get_last_ip(key.as_str()), Some("192.168.1.1".to_string()));
    store.set_state("other", RecordState { last_ip: None, last_update_time: Some(1) });
    assert_eq!(store.get_state("other").unwrap().last_update_time, Some(1));
    assert_eq!(store.get_last_ip(key.as_str()), Some("192.168.1.1".to_string()));
}

#[test]
fn settings_defaults_and_port_errors() {
    let s = Settings::new(None, None).unwrap();
    assert_eq!(s.server.host, "0.0.0.0");
    assert_eq!(s.server.port, 8080);
    let s = Settings::new(Some("127.0.0.1".to_string()), Some("9090".to_string())).unwrap();
    assert_eq!(s.server.host, "127.0.0.1");
    assert_eq!(s.server.port, 9090);
    for bad in ["70000", "http", "-1"] {
        match Settings::new(None, Some(bad.to_string())) {
            Err(DomainError::Configuration(m)) => assert_eq!(m, "Invalid port number"),
            _ => panic!("expected a configuration error"),
        }
    }
}
