use netcup_dns::api_calls::{
    create_login_session, destroy_login_session, get_domain_info, info_dns_records,
    update_dns_records,
};
use netcup_dns::api_objects::{
    DnsRecord, DnsRecordSet, DnsRecordsResponseData, LoginResponseData, RecordType,
    ResponseEnvelope,
};
use netcup_dns::codec::{encode, optional_flag, optional_text, records_to_wire};
use netcup_dns::configuration::Credentials;
use netcup_dns::decode::decode_records;
use netcup_dns::wire::{Member, Wire};

fn text(s: &str) -> Wire {
    Wire::Text(s.to_string())
}

fn member(name: &str, value: Wire) -> Member {
    Member { name: name.to_string(), value }
}

fn credentials() -> Credentials {
    Credentials { customernumber: 12345, apikey: "K".to_string(), apipassword: "P".to_string() }
}

fn a_record() -> DnsRecord {
    DnsRecord {
        id: None,
        hostname: "@".to_string(),
        dns_type: RecordType::A,
        priority: None,
        destination: "192.0.2.1".to_string(),
        deleterecord: Some(false),
        state: None,
    }
}

fn mx_record() -> DnsRecord {
    DnsRecord {
        id: Some("77".to_string()),
        hostname: "mail".to_string(),
        dns_type: RecordType::MX,
        priority: Some("10".to_string()),
        destination: "mx.example.test".to_string(),
        deleterecord: None,
        state: Some("yes".to_string()),
    }
}

fn a_record_wire() -> Wire {
    Wire::Object(vec![
        member("id", Wire::Null),
        member("hostname", text("@")),
        member("type", text("A")),
        member("priority", Wire::Null),
        member("destination", text("192.0.2.1")),
        member("deleterecord", Wire::Bool(false)),
        member("state", Wire::Null),
    ])
}

#[test]
fn member_new_copies_the_name() {
    let m = Member::new("apikey", Wire::Int(7));
    assert_eq!(m, member("apikey", Wire::Int(7)));
}

#[test]
fn wire_constructors_build_the_shapes() {
    assert_eq!(Wire::text(&"abc".to_string()), text("abc"));
    assert_eq!(Wire::number(-5), Wire::Int(-5));
    assert_eq!(Wire::number(i32::MAX), Wire::Int(2147483647));
    assert_eq!(Wire::object(vec![member("a", Wire::Null)]), Wire::Object(vec![member("a", Wire::Null)]));
    assert_eq!(Wire::list(vec![Wire::Bool(true)]), Wire::List(vec![Wire::Bool(true)]));
}

#[test]
fn field_finds_a_member_by_name() {
    let doc = Wire::Object(vec![member("a", Wire::Int(1)), member("b", Wire::Int(2))]);
    assert_eq!(doc.field("a"), Some(&Wire::Int(1)));
    assert_eq!(doc.field("b"), Some(&Wire::Int(2)));
    assert_eq!(doc.field("c"), None);
    assert_eq!(doc.field("A"), None);
}

#[test]
fn field_takes_the_first_of_a_repeated_name() {
    let doc = Wire::Object(vec![
        member("a", Wire::Int(1)),
        member("a", Wire::Int(2)),
    ]);
    assert_eq!(doc.field("a"), Some(&Wire::Int(1)));
}

#[test]
fn field_of_what_is_no_object_is_nothing() {
    assert_eq!(Wire::Null.field("a"), None);
    assert_eq!(text("a").field("a"), None);
    assert_eq!(Wire::List(vec![Wire::Object(vec![member("a", Wire::Null)])]).field("a"), None);
    assert_eq!(Wire::Object(vec![]).field("a"), None);
}

#[test]
fn text_field_wants_a_text() {
    let doc = Wire::Object(vec![
        member("t", text("x")),
        member("n", Wire::Int(1)),
        member("z", Wire::Null),
    ]);
    assert_eq!(doc.text_field("t"), Some("x".to_string()));
    assert_eq!(doc.text_field("n"), None);
    assert_eq!(doc.text_field("z"), None);
    assert_eq!(doc.text_field("missing"), None);
}

#[test]
fn optional_text_field_takes_null_and_absence_for_none() {
    let doc = Wire::Object(vec![
        member("t", text("x")),
        member("n", Wire::Int(1)),
        member("z", Wire::Null),
    ]);
    assert_eq!(doc.optional_text_field("t"), Some(Some("x".to_string())));
    assert_eq!(doc.optional_text_field("z"), Some(None));
    assert_eq!(doc.optional_text_field("missing"), Some(None));
    assert_eq!(doc.optional_text_field("n"), None);
}

#[test]
fn optional_flag_field_takes_null_and_absence_for_none() {
    let doc = Wire::Object(vec![
        member("f", Wire::Bool(true)),
        member("t", text("true")),
        member("z", Wire::Null),
    ]);
    assert_eq!(doc.optional_flag_field("f"), Some(Some(true)));
    assert_eq!(doc.optional_flag_field("z"), Some(None));
    assert_eq!(doc.optional_flag_field("missing"), Some(None));
    assert_eq!(doc.optional_flag_field("t"), None);
}

#[test]
fn code_field_wants_a_number_of_32_bits() {
    let doc = Wire::Object(vec![
        member("ok", Wire::Int(2000)),
        member("low", Wire::Int(-2147483648)),
        member("high", Wire::Int(2147483647)),
        member("too_high", Wire::Int(2147483648)),
        member("too_low", Wire::Int(-2147483649)),
        member("text", text("2000")),
    ]);
    assert_eq!(doc.code_field("ok"), Some(2000));
    assert_eq!(doc.code_field("low"), Some(i32::MIN));
    assert_eq!(doc.code_field("high"), Some(i32::MAX));
    assert_eq!(doc.code_field("too_high"), None);
    assert_eq!(doc.code_field("too_low"), None);
    assert_eq!(doc.code_field("text"), None);
    assert_eq!(doc.code_field("missing"), None);
}

#[test]
fn optional_values_become_null_when_absent() {
    assert_eq!(optional_text(&None), Wire::Null);
    assert_eq!(optional_text(&Some("x".to_string())), text("x"));
    assert_eq!(optional_flag(None), Wire::Null);
    assert_eq!(optional_flag(Some(true)), Wire::Bool(true));
}

#[test]
fn record_types_have_the_names_of_the_api() {
    let all = [
        (RecordType::A, "A"),
        (RecordType::AAAA, "AAAA"),
        (RecordType::MX, "MX"),
        (RecordType::TXT, "TXT"),
        (RecordType::CNAME, "CNAME"),
        (RecordType::SRV, "SRV"),
        (RecordType::NS, "NS"),
        (RecordType::DS, "DS"),
        (RecordType::TLSA, "TLSA"),
        (RecordType::CAA, "CAA"),
        (RecordType::SSHFP, "SSHFP"),
        (RecordType::SMIMEA, "SMIMEA"),
        (RecordType::OPENPGPKEY, "OPENPGPKEY"),
    ];
    for (kind, name) in all {
        assert_eq!(kind.name(), name);
        assert_eq!(RecordType::from_name(&name.to_string()), Some(kind));
    }
}

#[test]
fn record_type_names_are_matched_to_the_letter() {
    assert_eq!(RecordType::from_name(&"a".to_string()), None);
    assert_eq!(RecordType::from_name(&"".to_string()), None);
    assert_eq!(RecordType::from_name(&"SOA".to_string()), None);
    assert_eq!(RecordType::from_name(&"A ".to_string()), None);
}

#[test]
fn envelope_pairs_action_and_param() {
    let doc = encode(&"login".to_string(), Wire::Int(1));
    assert_eq!(doc, Wire::Object(vec![member("action", text("login")), member("param", Wire::Int(1))]));
}

#[test]
fn login_frame_is_laid_out_as_the_api_reads_it() {
    let doc = create_login_session(&credentials()).encode();
    let expected = Wire::Object(vec![
        member("action", text("login")),
        member(
            "param",
            Wire::Object(vec![
                member("customernumber", Wire::Int(12345)),
                member("apikey", text("K")),
                member("apipassword", text("P")),
            ]),
        ),
    ]);
    assert_eq!(doc, expected);
}

#[test]
fn logout_frame_is_laid_out_as_the_api_reads_it() {
    let doc = destroy_login_session(&credentials(), "S1".to_string()).encode();
    let expected = Wire::Object(vec![
        member("action", text("logout")),
        member(
            "param",
            Wire::Object(vec![
                member("customernumber", Wire::Int(12345)),
                member("apikey", text("K")),
                member("apisessionid", text("S1")),
                member("clientrequestid", Wire::Null),
            ]),
        ),
    ]);
    assert_eq!(doc, expected);
}

#[test]
fn info_domain_frame_is_laid_out_as_the_api_reads_it() {
    let doc = get_domain_info("S1".to_string(), "a.test".to_string(), &credentials()).encode();
    let expected = Wire::Object(vec![
        member("action", text("infoDomain")),
        member(
            "param",
            Wire::Object(vec![
                member("domainname", text("a.test")),
                member("customernumber", Wire::Int(12345)),
                member("apikey", text("K")),
                member("apisessionid", text("S1")),
                member("clientrequestid", Wire::Null),
                member("registryinformationflag", Wire::Null),
            ]),
        ),
    ]);
    assert_eq!(doc, expected);
}

#[test]
fn info_dns_records_frame_is_laid_out_as_the_api_reads_it() {
    let doc = info_dns_records("S1".to_string(), "a.test".to_string(), &credentials()).encode();
    let expected = Wire::Object(vec![
        member("action", text("infoDnsRecords")),
        member(
            "param",
            Wire::Object(vec![
                member("domainname", text("a.test")),
                member("customernumber", Wire::Int(12345)),
                member("apikey", text("K")),
                member("apisessionid", text("S1")),
                member("clientrequestid", Wire::Null),
            ]),
        ),
    ]);
    assert_eq!(doc, expected);
}

#[test]
fn update_frame_is_laid_out_as_the_api_reads_it() {
    let frame = update_dns_records(
        "S1".to_string(),
        "a.test".to_string(),
        &credentials(),
        vec![("root".to_string(), a_record())],
    );
    let expected = Wire::Object(vec![
        member("action", text("updateDnsRecords")),
        member(
            "param",
            Wire::Object(vec![
                member("domainname", text("a.test")),
                member("customernumber", Wire::Int(12345)),
                member("apikey", text("K")),
                member("apisessionid", text("S1")),
                member("clientrequestid", Wire::Null),
                member(
                    "dnsrecordset",
                    Wire::Object(vec![member("dnsrecords", Wire::List(vec![a_record_wire()]))]),
                ),
            ]),
        ),
    ]);
    assert_eq!(frame.encode(), expected);
}

#[test]
fn parameters_encode_on_their_own() {
    let frame = update_dns_records(
        "S1".to_string(),
        "a.test".to_string(),
        &credentials(),
        vec![("root".to_string(), a_record())],
    );
    assert_eq!(frame.encode().field("param"), Some(&frame.param.to_wire()));
    assert_eq!(
        frame.param.to_wire().field("dnsrecordset"),
        Some(&frame.param.dnsrecordset.to_wire())
    );
    let login = create_login_session(&credentials());
    assert_eq!(login.encode().field("param"), Some(&credentials().to_wire()));
    let logout = destroy_login_session(&credentials(), "S1".to_string());
    assert_eq!(logout.encode().field("param"), Some(&logout.param.to_wire()));
    let info = get_domain_info("S1".to_string(), "a.test".to_string(), &credentials());
    assert_eq!(info.encode().field("param"), Some(&info.param.to_wire()));
    let question = info_dns_records("S1".to_string(), "a.test".to_string(), &credentials());
    assert_eq!(question.encode().field("param"), Some(&question.param.to_wire()));
}

#[test]
fn record_is_laid_out_with_type_under_its_api_name() {
    assert_eq!(a_record().to_wire(), a_record_wire());
    let doc = mx_record().to_wire();
    assert_eq!(doc.text_field("type"), Some("MX".to_string()));
    assert_eq!(doc.field("dns_type"), None);
    assert_eq!(doc.text_field("id"), Some("77".to_string()));
    assert_eq!(doc.text_field("priority"), Some("10".to_string()));
    assert_eq!(doc.field("deleterecord"), Some(&Wire::Null));
}

#[test]
fn record_set_lists_records_in_order() {
    let set = DnsRecordSet { dnsrecords: vec![a_record(), mx_record()] };
    let expected = Wire::Object(vec![member(
        "dnsrecords",
        Wire::List(vec![a_record().to_wire(), mx_record().to_wire()]),
    )]);
    assert_eq!(set.to_wire(), expected);
    assert_eq!(records_to_wire(&vec![]), Wire::List(vec![]));
}

#[test]
fn record_comes_back_from_its_document() {
    assert_eq!(DnsRecord::decode(&a_record().to_wire()), Some(a_record()));
    assert_eq!(DnsRecord::decode(&mx_record().to_wire()), Some(mx_record()));
}

#[test]
fn records_come_back_from_their_document() {
    let records = vec![a_record(), mx_record(), a_record()];
    assert_eq!(decode_records(&records_to_wire(&records)), Some(records));
    assert_eq!(decode_records(&Wire::List(vec![])), Some(vec![]));
}

#[test]
fn request_fields_come_back_from_the_document() {
    let frame = update_dns_records(
        "S1".to_string(),
        "a.test".to_string(),
        &credentials(),
        vec![("root".to_string(), a_record()), ("mail".to_string(), mx_record())],
    );
    let doc = frame.encode();
    assert_eq!(doc.text_field("action"), Some("updateDnsRecords".to_string()));
    let param = doc.field("param").unwrap();
    assert_eq!(param.code_field("customernumber"), Some(12345));
    assert_eq!(param.text_field("apikey"), Some("K".to_string()));
    assert_eq!(param.text_field("apisessionid"), Some("S1".to_string()));
    assert_eq!(param.text_field("domainname"), Some("a.test".to_string()));
    assert_eq!(param.optional_text_field("clientrequestid"), Some(None));
    let set = param.field("dnsrecordset").unwrap();
    assert_eq!(
        decode_records(set.field("dnsrecords").unwrap()),
        Some(vec![a_record(), mx_record()])
    );
}

#[test]
fn login_fields_come_back_from_the_document() {
    let doc = create_login_session(&credentials()).encode();
    let param = doc.field("param").unwrap();
    assert_eq!(param.code_field("customernumber"), Some(12345));
    assert_eq!(param.text_field("apikey"), Some("K".to_string()));
    assert_eq!(param.text_field("apipassword"), Some("P".to_string()));
}

#[test]
fn record_without_a_mandatory_field_is_none() {
    let no_hostname = Wire::Object(vec![
        member("type", text("A")),
        member("destination", text("192.0.2.1")),
    ]);
    assert_eq!(DnsRecord::decode(&no_hostname), None);
    let no_type = Wire::Object(vec![
        member("hostname", text("@")),
        member("destination", text("192.0.2.1")),
    ]);
    assert_eq!(DnsRecord::decode(&no_type), None);
    let no_destination = Wire::Object(vec![
        member("hostname", text("@")),
        member("type", text("A")),
    ]);
    assert_eq!(DnsRecord::decode(&no_destination), None);
    assert_eq!(DnsRecord::decode(&Wire::Null), None);
    assert_eq!(DnsRecord::decode(&Wire::List(vec![])), None);
}

#[test]
fn record_with_only_the_mandatory_fields_is_read() {
    let doc = Wire::Object(vec![
        member("destination", text("192.0.2.1")),
        member("type", text("AAAA")),
        member("hostname", text("www")),
        member("unknown", Wire::Int(3)),
    ]);
    let expected = DnsRecord {
        id: None,
        hostname: "www".to_string(),
        dns_type: RecordType::AAAA,
        priority: None,
        destination: "192.0.2.1".to_string(),
        deleterecord: None,
        state: None,
    };
    assert_eq!(DnsRecord::decode(&doc), Some(expected));
}

#[test]
fn record_with_a_misshapen_field_is_none() {
    let unknown_type = Wire::Object(vec![
        member("hostname", text("@")),
        member("type", text("SOA")),
        member("destination", text("x")),
    ]);
    assert_eq!(DnsRecord::decode(&unknown_type), None);
    let number_as_id = Wire::Object(vec![
        member("id", Wire::Int(5)),
        member("hostname", text("@")),
        member("type", text("A")),
        member("destination", text("x")),
    ]);
    assert_eq!(DnsRecord::decode(&number_as_id), None);
    let text_as_flag = Wire::Object(vec![
        member("hostname", text("@")),
        member("type", text("A")),
        member("destination", text("x")),
        member("deleterecord", text("false")),
    ]);
    assert_eq!(DnsRecord::decode(&text_as_flag), None);
    let null_hostname = Wire::Object(vec![
        member("hostname", Wire::Null),
        member("type", text("A")),
        member("destination", text("x")),
    ]);
    assert_eq!(DnsRecord::decode(&null_hostname), None);
}

#[test]
fn records_fail_as_a_whole_on_one_bad_item() {
    let list = Wire::List(vec![a_record_wire(), Wire::Null, a_record_wire()]);
    assert_eq!(decode_records(&list), None);
    assert_eq!(decode_records(&a_record_wire()), None);
    assert_eq!(decode_records(&Wire::Null), None);
}

#[test]
fn response_records_are_read_from_dnsrecords() {
    let doc = Wire::Object(vec![member("dnsrecords", Wire::List(vec![a_record_wire()]))]);
    assert_eq!(
        DnsRecordsResponseData::decode(&doc),
        Some(DnsRecordsResponseData { dnsrecords: vec![a_record()] })
    );
    assert_eq!(DnsRecordsResponseData::decode(&Wire::Object(vec![])), None);
    assert_eq!(DnsRecordsResponseData::decode(&text("")), None);
    let bad = Wire::Object(vec![member("dnsrecords", text("none"))]);
    assert_eq!(DnsRecordsResponseData::decode(&bad), None);
}

#[test]
fn session_is_read_from_apisessionid() {
    let doc = Wire::Object(vec![member("apisessionid", text("S1"))]);
    assert_eq!(
        LoginResponseData::decode(&doc),
        Some(LoginResponseData { apisessionid: "S1".to_string() })
    );
    assert_eq!(LoginResponseData::decode(&Wire::Object(vec![])), None);
    assert_eq!(LoginResponseData::decode(&text("")), None);
    let bad = Wire::Object(vec![member("apisessionid", Wire::Int(1))]);
    assert_eq!(LoginResponseData::decode(&bad), None);
}

#[test]
fn envelope_is_read_without_looking_at_responsedata() {
    let doc = Wire::Object(vec![
        member("serverrequestid", text("srv")),
        member("clientrequestid", text("")),
        member("action", text("login")),
        member("status", text("error")),
        member("statuscode", Wire::Int(4013)),
        member("shortmessage", text("Validation Error.")),
        member("longmessage", Wire::Null),
        member("responsedata", text("")),
    ]);
    let expected = ResponseEnvelope {
        serverrequestid: "srv".to_string(),
        clientrequestid: Some("".to_string()),
        action: "login".to_string(),
        status: "error".to_string(),
        statuscode: 4013,
        shortmessage: "Validation Error.".to_string(),
        longmessage: None,
    };
    assert_eq!(ResponseEnvelope::decode(&doc), Some(expected));
}

#[test]
fn envelope_without_a_common_field_is_none() {
    let names = ["serverrequestid", "action", "status", "statuscode", "shortmessage"];
    for missing in names {
        let mut members = Vec::new();
        for name in names {
            if name != missing {
                let value = if name == "statuscode" { Wire::Int(2000) } else { text("x") };
                members.push(member(name, value));
            }
        }
        assert_eq!(ResponseEnvelope::decode(&Wire::Object(members)), None);
    }
    let mut members = Vec::new();
    for name in names {
        let value = if name == "statuscode" { Wire::Int(2000) } else { text("x") };
        members.push(member(name, value));
    }
    assert!(ResponseEnvelope::decode(&Wire::Object(members)).is_some());
    assert_eq!(ResponseEnvelope::decode(&Wire::Null), None);
}
