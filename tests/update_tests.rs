use cloudflare_ddns::config::{DdnsConfig, IpType};
use cloudflare_ddns::dns::{DnsRecord, DnsUpdateResult};
use cloudflare_ddns::error::DomainError;
use cloudflare_ddns::events::{EventData, EventType};
use cloudflare_ddns::factory::{CycleResult, ServiceFactory};
use cloudflare_ddns::state::{state_key, StateStore};
use cloudflare_ddns::update::{CyclePlan, UpdateService};

fn config(name: &str, ip_type: IpType) -> DdnsConfig {
    DdnsConfig {
        api_token: "test_token".to_string(),
        zone_id: "test_zone".to_string(),
        record_id: "test_record".to_string(),
        record_name: name.to_string(),
        update_interval: 300,
        ip_type,
    }
}

fn written(record: &DnsRecord) -> Result<DnsUpdateResult, DomainError> {
    Ok(DnsUpdateResult { record: record.duplicate(), updated: true })
}

/// Runs one normal cycle through the registry; returns the written record.
fn cycle(factory: &mut ServiceFactory, instance: u64, resolved: &str, time: i64) -> Option<DnsRecord> {
    match factory.plan_cycle(instance, Ok(resolved.to_string()), false) {
        Some(CyclePlan::Write(record)) => {
            let outcome = written(&record);
            match factory.complete_cycle(instance, resolved.to_string(), outcome, time) {
                CycleResult::Done(Ok(o)) => assert!(o.was_written),
                _ => panic!("the write should be recorded"),
            }
            Some(record)
        },
        Some(CyclePlan::Skip(_)) => None,
        _ => panic!("unexpected plan"),
    }
}

#[test]
fn scenario_three_cycles() {
    let mut factory = ServiceFactory::new();
    factory.load_configs(vec![DdnsConfig {
        api_token: "t".to_string(),
        zone_id: "z".to_string(),
        record_id: "r".to_string(),
        record_name: "home.example.com".to_string(),
        update_interval: 300,
        ip_type: IpType::IPv4,
    }]);
    let instance = factory.service_at(0).instance;
    let key = state_key("z", "r");

    let first = cycle(&mut factory, instance, "203.0.113.9", 1).expect("one write");
    assert_eq!(first.content, "203.0.113.9");
    assert_eq!(first.record_type, "A");
    assert_eq!(first.ttl, 120);
    assert_eq!(
        factory.state_store().get_last_ip(key.as_str()),
        Some("203.0.113.9".to_string())
    );

    assert!(cycle(&mut factory, instance, "203.0.113.9", 2).is_none());

    let third = cycle(&mut factory, instance, "203.0.113.10", 3).expect("one write");
    assert_eq!(third.content, "203.0.113.10");
    assert_eq!(
        factory.state_store().get_last_ip(key.as_str()),
        Some("203.0.113.10".to_string())
    );
    assert_eq!(factory.state_store().get_last_update_time(key.as_str()), Some(3));
}

#[test]
fn first_cycle_writes_without_prior_state() {
    let service = UpdateService::new(config("test.example.com", IpType::IPv4), 0);
    let store = StateStore::new();
    match service.plan_cycle(&store, Ok("192.168.1.1".to_string()), false) {
        CyclePlan::Write(record) => {
            assert_eq!(record.content, "192.168.1.1");
            assert_eq!(record.name, "test.example.com");
            assert_eq!(record.id, Some("test_record".to_string()));
            assert!(!record.proxied);
        },
        _ => panic!("the first cycle must write"),
    }
}

#[test]
fn unchanged_address_skips_and_forced_update_writes() {
    let service = UpdateService::new(config("test.example.com", IpType::IPv6), 0);
    let mut store = StateStore::new();
    store.record_write("test_zone-test_record", "2001:db8::1".to_string(), 10);
    assert!(matches!(
        service.plan_cycle(&store, Ok("2001:db8::1".to_string()), false),
        CyclePlan::Skip(_)
    ));
    match service.plan_cycle(&store, Ok("2001:db8::1".to_string()), true) {
        CyclePlan::Write(record) => {
            assert_eq!(record.record_type, "AAAA");
            assert_eq!(record.content, "2001:db8::1");
        },
        _ => panic!("a forced cycle must write"),
    }
    assert!(matches!(
        service.plan_cycle(&store, Ok("2001:db8::2".to_string()), false),
        CyclePlan::Write(_)
    ));
}

#[test]
fn failed_resolution_never_writes() {
    let service = UpdateService::new(config("test.example.com", IpType::IPv4), 0);
    let store = StateStore::new();
    let plan = service.plan_cycle(&store, Err(DomainError::network("down".to_string())), true);
    assert!(matches!(plan, CyclePlan::Recover(DomainError::Network(_))));
}

#[test]
fn failed_write_leaves_state_untouched() {
    let service = UpdateService::new(config("test.example.com", IpType::IPv4), 0);
    let mut store = StateStore::new();
    store.record_write("test_zone-test_record", "192.168.1.0".to_string(), 5);
    let r = service.commit_write(
        &mut store,
        "192.168.1.1".to_string(),
        Err(DomainError::LogicError("rejected".to_string())),
        6,
    );
    assert!(matches!(r, Err(DomainError::LogicError(_))));
    assert_eq!(store.get_last_ip("test_zone-test_record"), Some("192.168.1.0".to_string()));
    assert_eq!(store.get_last_update_time("test_zone-test_record"), Some(5));
}

#[test]
fn config_change_mid_cycle_abandons_the_stale_write() {
    let mut factory = ServiceFactory::new();
    factory.set_cached_configs(vec![config("a.example.com", IpType::IPv4)]);
    factory.reload_configs_and_restart_services();
    let stale = factory.service_at(0).instance;
    let plan = factory.plan_cycle(stale, Ok("198.51.100.1".to_string()), false);
    let record = match plan {
        Some(CyclePlan::Write(record)) => record,
        _ => panic!("the first cycle must write"),
    };

    factory.set_cached_configs(vec![config("a.example.com", IpType::IPv4)]);
    let targets = factory.handle_event(&EventData { event_type: EventType::ConfigChanged, data: None });
    assert!(targets.is_empty());
    assert!(!factory.is_current(stale));

    let r = factory.complete_cycle(stale, "198.51.100.1".to_string(), written(&record), 7);
    assert!(matches!(r, CycleResult::Abandoned));
    assert_eq!(factory.state_store().get_state("test_zone-test_record").is_none(), true);
    assert!(factory.plan_cycle(stale, Ok("198.51.100.1".to_string()), false).is_none());

    let fresh = factory.service_at(0).instance;
    assert!(cycle(&mut factory, fresh, "198.51.100.1", 8).is_some());
    let state = factory.state_store().get_state("test_zone-test_record").unwrap();
    assert_eq!(state.last_ip, Some("198.51.100.1".to_string()));
    assert_eq!(state.last_update_time, Some(8));
}

#[test]
fn registry_keeps_one_service_per_identity() {
    let mut factory = ServiceFactory::new();
    let mut second = config("a.example.com", IpType::IPv4);
    second.update_interval = 60;
    factory.load_configs(vec![
        config("a.example.com", IpType::IPv4),
        config("a.example.com", IpType::IPv6),
        second,
    ]);
    assert_eq!(factory.services_len(), 2);
    assert_eq!(factory.service_at(0).config.update_interval, 60);
    assert_eq!(factory.service_at(1).config.ip_type, IpType::IPv6);
    assert_ne!(factory.service_at(0).instance, factory.service_at(1).instance);
}

#[test]
fn restart_recreates_services_from_memory() {
    let mut factory = ServiceFactory::new();
    factory.load_configs(vec![config("a.example.com", IpType::IPv4), config("b.example.com", IpType::IPv4)]);
    let before = factory.service_at(0).instance;
    let targets = factory.handle_event(&EventData { event_type: EventType::RestartDdnsService, data: None });
    assert!(targets.is_empty());
    assert_eq!(factory.services_len(), 2);
    assert_eq!(factory.service_at(0).config.record_name, "a.example.com");
    assert_eq!(factory.service_at(1).config.record_name, "b.example.com");
    assert!(!factory.is_current(before));
}

#[test]
fn force_update_targets_by_name_or_all() {
    let mut factory = ServiceFactory::new();
    factory.load_configs(vec![config("a.example.com", IpType::IPv4), config("b.example.com", IpType::IPv4)]);
    let a = factory.service_at(0).instance;
    let b = factory.service_at(1).instance;
    let event = EventData { event_type: EventType::ForceUpdateDns, data: Some("b.example.com".to_string()) };
    assert_eq!(factory.handle_event(&event), vec![b]);
    let event = EventData { event_type: EventType::ForceUpdateDns, data: None };
    assert_eq!(factory.handle_event(&event), vec![a, b]);
    let event = EventData { event_type: EventType::ForceUpdateDns, data: Some("c.example.com".to_string()) };
    assert!(factory.handle_event(&event).is_empty());
    assert!(factory.find_ddns_service("c.example.com").is_none());
    assert_eq!(factory.find_ddns_service("b.example.com").unwrap().instance, b);
}

#[test]
fn test_force_update() {
    let mut factory = ServiceFactory::new();
    factory.load_configs(vec![config("test.example.com", IpType::IPv4)]);
    let instance = factory.service_at(0).instance;
    assert!(cycle(&mut factory, instance, "192.168.1.0", 1).is_some());
    let plan = factory.plan_cycle(instance, Ok("192.168.1.0".to_string()), true);
    let record = match plan {
        Some(CyclePlan::Write(record)) => record,
        _ => panic!("a forced update always writes"),
    };
    match factory.complete_cycle(instance, "192.168.1.0".to_string(), written(&record), 2) {
        CycleResult::Done(Ok(o)) => {
            assert_eq!(o.record.name, "test.example.com");
            assert_eq!(o.record.content, "192.168.1.0");
        },
        _ => panic!("the forced write should be recorded"),
    }
    assert_eq!(factory.state_store().get_last_update_time("test_zone-test_record"), Some(2));
}

#[test]
fn status_reports_last_successful_write() {
    let mut factory = ServiceFactory::new();
    assert!(factory.get_status(None).is_none());
    factory.load_configs(vec![config("a.example.com", IpType::IPv4)]);
    let instance = factory.service_at(0).instance;
    let status = factory.get_status(Some("a.example.com")).unwrap();
    assert_eq!(status.record_name, "a.example.com");
    assert_eq!(status.current_address, None);
    cycle(&mut factory, instance, "192.0.2.1", 42);
    let plan = factory.plan_cycle(instance, Ok("192.0.2.2".to_string()), false);
    assert!(matches!(plan, Some(CyclePlan::Write(_))));
    let r = factory.complete_cycle(instance, "192.0.2.2".to_string(), Err(DomainError::network("x".to_string())), 43);
    assert!(matches!(r, CycleResult::Done(Err(_))));
    let status = factory.get_status(None).unwrap();
    assert_eq!(status.current_address, Some("192.0.2.1".to_string()));
    assert_eq!(status.last_update_time, Some(42));
    assert!(factory.get_status(Some("z.example.com")).is_none());
}

#[test]
fn save_rejects_invalid_configs_and_keeps_services() {
    let mut factory = ServiceFactory::new();
    factory.load_configs(vec![config("a.example.com", IpType::IPv4)]);
    let mut bad = config("b.example.com", IpType::IPv4);
    bad.update_interval = 2;
    match factory.save_configs_and_apply(vec![config("c.example.com", IpType::IPv4), bad]) {
        Err(DomainError::Validation(m)) => assert_eq!(m, "Update interval cannot be less than 5 seconds"),
        _ => panic!("expected a Validation error"),
    }
    assert_eq!(factory.services_len(), 1);
    assert_eq!(factory.service_at(0).config.record_name, "a.example.com");
    assert!(factory.save_configs_and_apply(vec![config("c.example.com", IpType::IPv6)]).is_ok());
    assert_eq!(factory.services_len(), 1);
    assert_eq!(factory.service_at(0).config.record_name, "c.example.com");
    assert_eq!(factory.config_service().get_configs().len(), 1);
}

#[test]
fn test_update_dns_record_with_ip_change() {
    let service = test_service();
    let mut store = StateStore::new();
    store.set_last_ip("test_zone-test_record", "192.168.1.1".to_string());
    let record = match service.plan_cycle(&store, Ok("192.168.1.2".to_string()), false) {
        CyclePlan::Write(record) => record,
        _ => panic!("a changed address must be written"),
    };
    let result = service.commit_write(&mut store, "192.168.1.2".to_string(), written(&record), 1);
    assert!(result.is_ok());
    let update_result = result.unwrap();
    assert!(update_result.was_written);
    assert_eq!(update_result.record.content, "192.168.1.2");
    assert_eq!(store.get_last_ip("test_zone-test_record"), Some("192.168.1.2".to_string()));
}

#[test]
fn test_update_dns_record_without_ip_change() {
    let current_ip = "192.168.1.1";
    let service = test_service();
    let mut store = StateStore::new();
    store.set_last_ip("test_zone-test_record", current_ip.to_string());
    match service.plan_cycle(&store, Ok(current_ip.to_string()), false) {
        CyclePlan::Skip(record) => assert_eq!(record.content, current_ip),
        _ => panic!("an unchanged address must not be written"),
    }
}

#[test]
fn test_update_dns_record_first_run() {
    let current_ip = "192.168.1.1";
    let service = test_service();
    let mut store = StateStore::new();
    let record = match service.plan_cycle(&store, Ok(current_ip.to_string()), false) {
        CyclePlan::Write(record) => record,
        _ => panic!("the first run must write"),
    };
    let update_result = service.commit_write(&mut store, current_ip.to_string(), written(&record), 1).unwrap();
    assert!(update_result.was_written);
    assert_eq!(update_result.record.content, current_ip);
    assert_eq!(store.get_last_ip("test_zone-test_record"), Some(current_ip.to_string()));
    assert!(store.get_last_update_time("test_zone-test_record").is_some());
}

#[test]
fn test_ddns_update_flow() {
    let service = test_service();
    let mut store = StateStore::new();
    let record = match service.plan_cycle(&store, Ok("192.168.1.1".to_string()), true) {
        CyclePlan::Write(record) => record,
        _ => panic!("a forced update always writes"),
    };
    assert_eq!(record.name, "test.example.com");
    let outcome = service.commit_write(&mut store, "192.168.1.1".to_string(), written(&record), 9).unwrap();
    assert_eq!(outcome.record.name, "test.example.com");
    assert_eq!(outcome.record.content, "192.168.1.1");
    let config_id = state_key("test_zone", "test_record");
    assert_eq!(store.get_last_ip(config_id.as_str()), Some("192.168.1.1".to_string()));
    assert!(store.get_last_update_time(config_id.as_str()).is_some());
}

fn test_service() -> UpdateService {
    UpdateService::new(config("test.example.com", IpType::IPv4), 0)
}
