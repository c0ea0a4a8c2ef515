use netcup_dns::api_objects::{text_clone, records_clone, DnsRecord, DnsZone, RecordType};
use netcup_dns::configuration::{Configuration, Credentials, Domain};
use netcup_dns::wire::{Member, Wire};

fn secret() -> Credentials {
    Credentials { customernumber: 7, apikey: "key".to_string(), apipassword: "pw".to_string() }
}

fn txt(destination: &str) -> DnsRecord {
    DnsRecord {
        id: Some("1".to_string()),
        hostname: "@".to_string(),
        dns_type: RecordType::TXT,
        priority: None,
        destination: destination.to_string(),
        deleterecord: Some(true),
        state: Some("yes".to_string()),
    }
}

fn domain(name: &str, keys: &[&str]) -> Domain {
    let mut entries = Vec::new();
    for key in keys {
        entries.push((key.to_string(), txt(key)));
    }
    Domain { domain_name: name.to_string(), dns_records: Some(entries) }
}

#[test]
fn credentials_clone_is_the_same_value() {
    assert_eq!(secret().clone(), secret());
}

#[test]
fn record_clone_is_the_same_value() {
    assert_eq!(txt("a").clone(), txt("a"));
    assert_eq!(text_clone(&Some("x".to_string())), Some("x".to_string()));
    assert_eq!(text_clone(&None), None);
    let entries = vec![("a".to_string(), txt("a")), ("b".to_string(), txt("b"))];
    assert_eq!(records_clone(&entries), entries);
    assert_eq!(records_clone(&vec![]), vec![]);
}

#[test]
fn domain_with_distinct_record_keys_is_well_formed() {
    assert_eq!(domain("a.test", &["one", "two", "three"]).is_well_formed(), true);
    assert_eq!(domain("a.test", &[]).is_well_formed(), true);
    assert_eq!(domain("a.test", &["one"]).is_well_formed(), true);
    let unmanaged = Domain { domain_name: "a.test".to_string(), dns_records: None };
    assert_eq!(unmanaged.is_well_formed(), true);
}

#[test]
fn domain_with_a_repeated_record_key_is_not_well_formed() {
    assert_eq!(domain("a.test", &["one", "one"]).is_well_formed(), false);
    assert_eq!(domain("a.test", &["one", "two", "one"]).is_well_formed(), false);
    assert_eq!(domain("a.test", &["one", "two", "three", "three"]).is_well_formed(), false);
}

#[test]
fn configuration_with_distinct_keys_is_well_formed() {
    let empty = Configuration { credentials: secret(), domains: vec![] };
    assert_eq!(empty.is_well_formed(), true);
    let two = Configuration {
        credentials: secret(),
        domains: vec![
            ("first".to_string(), domain("a.test", &["one", "two"])),
            ("second".to_string(), domain("a.test", &["one", "two"])),
        ],
    };
    assert_eq!(two.is_well_formed(), true);
}

#[test]
fn configuration_with_a_repeated_key_is_not_well_formed() {
    let repeated_domain_key = Configuration {
        credentials: secret(),
        domains: vec![
            ("first".to_string(), domain("a.test", &["one"])),
            ("second".to_string(), domain("b.test", &["one"])),
            ("first".to_string(), domain("c.test", &["one"])),
        ],
    };
    assert_eq!(repeated_domain_key.is_well_formed(), false);
    let repeated_record_key = Configuration {
        credentials: secret(),
        domains: vec![
            ("first".to_string(), domain("a.test", &["one"])),
            ("second".to_string(), domain("b.test", &["one", "two", "two"])),
        ],
    };
    assert_eq!(repeated_record_key.is_well_formed(), false);
}

#[test]
fn zone_holds_its_settings() {
    let zone = DnsZone {
        domain: "a.test".to_string(),
        ttl: 86400,
        serial: 2024010101,
        refresh: 28800,
        retry: 7200,
        expire: 1209600,
        enable_dnsssec: false,
    };
    assert_eq!(zone.domain, "a.test");
    assert_eq!(zone.ttl, 86400);
    assert_eq!(zone.enable_dnsssec, false);
}

#[test]
fn no_field_reads_a_decimal() {
    let doc = Wire::Object(vec![
        Member { name: "statuscode".to_string(), value: Wire::Decimal("2000.5".to_string()) },
        Member { name: "text".to_string(), value: Wire::Decimal("1e3".to_string()) },
    ]);
    assert_eq!(doc.code_field("statuscode"), None);
    assert_eq!(doc.text_field("text"), None);
    assert_eq!(doc.optional_text_field("text"), None);
    assert_eq!(doc.optional_flag_field("text"), None);
    assert_eq!(doc.field("text"), Some(&Wire::Decimal("1e3".to_string())));
}
