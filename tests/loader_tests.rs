use cloudflare_ddns::config::{DdnsConfig, IpType};
use cloudflare_ddns::error::AppError;
use cloudflare_ddns::loader::{DdnsConfigLoader, LoaderEnv};

fn some(s: &str) -> Option<String> {
    Some(s.to_string())
}

fn env() -> LoaderEnv {
    LoaderEnv {
        api_token: some("token"),
        zone_id: some("zone"),
        record_id: some("rid"),
        record_name: some("v4.example.com"),
        update_interval: None,
        api_token_v6: None,
        zone_id_v6: some("zone6"),
        record_id_v6: some("rid6"),
        record_name_v6: some("v6.example.com"),
        update_interval_v6: some("60"),
    }
}

fn config_message<T>(r: Result<T, AppError>) -> String {
    match r {
        Err(AppError::ConfigError(m)) => m,
        _ => panic!("expected a configuration error"),
    }
}

fn config(name: &str, interval: u64) -> DdnsConfig {
    DdnsConfig {
        api_token: "t".to_string(),
        zone_id: "z".to_string(),
        record_id: "r".to_string(),
        record_name: name.to_string(),
        update_interval: interval,
        ip_type: IpType::IPv4,
    }
}

#[test]
fn environment_records_with_fallbacks() {
    let v4 = DdnsConfigLoader::load_for_api("ipv4", &env()).unwrap();
    assert_eq!(v4.update_interval, 300);
    assert_eq!(v4.zone_id, "zone");
    let v6 = DdnsConfigLoader::load_for_api("ipv6", &env()).unwrap();
    assert_eq!(v6.api_token, "token");
    assert_eq!(v6.zone_id, "zone6");
    assert_eq!(v6.update_interval, 60);
    assert_eq!(v6.ip_type, IpType::IPv6);
    assert_eq!(config_message(DdnsConfigLoader::load_for_api("IPv4", &env())), "Invalid IP type: IPv4");
}

#[test]
fn environment_errors() {
    let mut e = env();
    e.record_name = None;
    assert_eq!(
        config_message(DdnsConfigLoader::load_ipv4_config(&e)),
        "Missing CLOUDFLARE_RECORD_NAME environment variable"
    );
    let mut e = env();
    e.update_interval = some("soon");
    assert_eq!(config_message(DdnsConfigLoader::load_ipv4_config(&e)), "DDNS_UPDATE_INTERVAL must be a number");
    let mut e = env();
    e.update_interval = some("2");
    assert_eq!(
        config_message(DdnsConfigLoader::load_ipv4_config(&e)),
        "IPv4 Configuration: Update interval cannot be less than 5 seconds"
    );
    let mut e = env();
    e.api_token = None;
    assert_eq!(config_message(DdnsConfigLoader::load_ipv6_config(&e)), "Missing API token environment variable");
}

#[test]
fn file_configs_are_checked_with_their_position() {
    let ok = DdnsConfigLoader::check_file_configs(vec![config("a", 300)]).unwrap();
    assert_eq!(ok.len(), 1);
    let r = DdnsConfigLoader::check_file_configs(vec![config("a", 300), config("b", 300), config(" ", 300)]);
    assert_eq!(config_message(r), "Configuration[2]: Record name cannot be empty");
    assert!(DdnsConfigLoader::validate_config(&config("a", 5), "ctx").is_ok());
    assert_eq!(
        config_message(DdnsConfigLoader::validate_config(&config("a", 4), "ctx")),
        "ctx: Update interval cannot be less than 5 seconds"
    );
}

#[test]
fn file_first_then_environment() {
    let from_file = DdnsConfigLoader::load_all_configs(Some(Ok(vec![config("f", 300)])), &env()).unwrap();
    assert_eq!(from_file.len(), 1);
    assert_eq!(from_file[0].record_name, "f");
    let from_env = DdnsConfigLoader::load_all_configs(Some(Ok(Vec::new())), &env()).unwrap();
    assert_eq!(from_env.len(), 2);
    assert_eq!(from_env[0].ip_type, IpType::IPv4);
    assert_eq!(from_env[1].ip_type, IpType::IPv6);
    let failed_file = Some(Err(AppError::ConfigError("unreadable".to_string())));
    assert_eq!(DdnsConfigLoader::load_all_configs(failed_file, &env()).unwrap().len(), 2);
    let empty = LoaderEnv {
        api_token: None,
        zone_id: None,
        record_id: None,
        record_name: None,
        update_interval: None,
        api_token_v6: None,
        zone_id_v6: None,
        record_id_v6: None,
        record_name_v6: None,
        update_interval_v6: None,
    };
    assert_eq!(
        config_message(DdnsConfigLoader::load_all_configs(None, &empty)),
        "Unable to load any DDNS configurations"
    );
}
