use cloudflare_ddns::dns::{
    bearer_header, join_errors, read_create_reply, read_get_reply, read_list_reply, read_update_reply,
    record_url, records_url, DnsRecord,
};
use cloudflare_ddns::error::DomainError;
use cloudflare_ddns::ip::{ipv6_step, MirrorStep, PublicIpService};

fn record(content: &str) -> DnsRecord {
    DnsRecord {
        id: Some("record-456".to_string()),
        name: "test.example.com".to_string(),
        record_type: "A".to_string(),
        content: content.to_string(),
        ttl: 120,
        proxied: false,
    }
}

#[test]
fn provider_urls_and_header() {
    assert_eq!(
        record_url("zone-123", "record-456"),
        "https://api.cloudflare.com/client/v4/zones/zone-123/dns_records/record-456"
    );
    assert_eq!(records_url("zone-123"), "https://api.cloudflare.com/client/v4/zones/zone-123/dns_records");
    assert_eq!(bearer_header("abc"), "Bearer abc");
}

#[test]
fn failure_flag_is_a_logic_error() {
    let errors = vec!["code 9109".to_string(), "invalid token".to_string()];
    assert_eq!(join_errors(&errors), "code 9109, invalid token");
    match read_update_reply(false, &errors, Some(record("192.168.1.1"))) {
        Err(DomainError::LogicError(m)) => assert_eq!(m, "Cloudflare API error: code 9109, invalid token"),
        _ => panic!("expected a logic error"),
    }
    match read_get_reply(false, &Vec::new(), None, "r") {
        Err(DomainError::LogicError(m)) => assert_eq!(m, "Unknown Cloudflare API error"),
        _ => panic!("expected a logic error"),
    }
}

#[test]
fn missing_results() {
    let none = Vec::new();
    let updated = read_update_reply(true, &none, Some(record("192.168.1.1"))).unwrap();
    assert!(updated.updated);
    assert_eq!(updated.record.content, "192.168.1.1");
    match read_update_reply(true, &none, None) {
        Err(DomainError::LogicError(m)) => assert_eq!(m, "No record in response"),
        _ => panic!("expected a logic error"),
    }
    match read_get_reply(true, &none, None, "record-456") {
        Err(DomainError::NotFound(m)) => assert_eq!(m, "DNS record not found: record-456"),
        _ => panic!("expected NotFound"),
    }
    assert_eq!(read_get_reply(true, &none, Some(record("192.168.1.1")), "record-456").unwrap().ttl, 120);
    assert!(read_list_reply(true, &none, None).unwrap().is_empty());
    assert_eq!(read_list_reply(true, &none, Some(vec![record("a"), record("b")])).unwrap().len(), 2);
    match read_create_reply(true, &none, None) {
        Err(DomainError::LogicError(m)) => assert_eq!(m, "Failed to create DNS record"),
        _ => panic!("expected a logic error"),
    }
}

#[test]
fn lookup_endpoints() {
    let s = PublicIpService::new(None, None);
    assert_eq!(s.ipv4_url, "https://api4.ipify.org");
    assert_eq!(s.ipv6_urls.len(), 3);
    assert_eq!(s.ipv6_urls[1], "https://v6.ident.me/");
    let s = PublicIpService::new(Some("http://a".to_string()), Some("http://b".to_string()));
    assert_eq!(s.ipv4_url, "http://a");
    assert_eq!(s.ipv6_urls, vec!["http://b".to_string()]);
}

#[test]
fn ipv6_mirrors_are_tried_in_order() {
    let ok = |s: &str| -> Result<String, DomainError> { Ok(s.to_string()) };
    assert!(matches!(ipv6_step(0, 3, ok("2001:db8::1"), true), MirrorStep::Accept(ip) if ip == "2001:db8::1"));
    assert!(matches!(ipv6_step(0, 3, ok("<html>"), false), MirrorStep::TryNext));
    assert!(matches!(ipv6_step(1, 3, Err(DomainError::network("x".to_string())), false), MirrorStep::TryNext));
    assert!(matches!(ipv6_step(2, 3, ok("<html>"), false), MirrorStep::GiveUp(DomainError::Network(_))));
    assert!(matches!(
        ipv6_step(2, 3, Err(DomainError::network("x".to_string())), false),
        MirrorStep::GiveUp(DomainError::Network(_))
    ));
}

#[test]
fn last_mirror_failure_keeps_its_cause() {
    match ipv6_step(2, 3, Err(DomainError::network("down".to_string())), false) {
        MirrorStep::GiveUp(e) => assert_eq!(e.message(), "網絡錯誤: 未知網絡錯誤: 所有 IPv6 檢測服務均失敗: 網絡錯誤: 未知網絡錯誤: down"),
        _ => panic!("expected to give up"),
    }
    match ipv6_step(0, 1, Ok("<html>".to_string()), false) {
        MirrorStep::GiveUp(DomainError::Network(n)) => assert_eq!(n.message(), "未知網絡錯誤: 無法獲取 IPv6 地址，所有服務均失敗"),
        _ => panic!("expected to give up"),
    }
}
