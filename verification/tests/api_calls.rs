use netcup_dns::api_calls::{
    accept, create_login_session, destroy_login_session, dns_records_outcome,
    domain_info_outcome, get_domain_info, info_dns_records, login_outcome, update_dns_records,
    update_dns_zone, update_domain, update_handle, update_outcome, ApiError, Reply, API_URL,
    INFO_DNS_RECORDS_ACTION, INFO_DOMAIN_ACTION, LOGIN_ACTION, LOGOUT_ACTION,
    SUCCESS_STATUS_CODE, UPDATE_DNS_RECORDS_ACTION,
};
use netcup_dns::api_objects::{
    DnsRecord, DnsRecordSet, DnsRecordsResponseData, InfoDnsRecordsRequest, InfoDnsRecordsResponse,
    InfoDomainRequest, InfoDomainResponse, LoginResponse, LoginResponseData, LogoutRequest,
    RecordType, UpdateDnsRecordsRequest, UpdateDnsRecordsResponse,
};
use netcup_dns::configuration::Credentials;
use netcup_dns::wire::{Member, Wire};

fn words(s: &str) -> Wire {
    Wire::Text(s.to_string())
}

fn entry(name: &str, value: Wire) -> Member {
    Member { name: name.to_string(), value }
}

fn account() -> Credentials {
    Credentials { customernumber: 12345, apikey: "K".to_string(), apipassword: "P".to_string() }
}

fn record(hostname: &str, kind: RecordType, destination: &str) -> DnsRecord {
    DnsRecord {
        id: None,
        hostname: hostname.to_string(),
        dns_type: kind,
        priority: None,
        destination: destination.to_string(),
        deleterecord: None,
        state: None,
    }
}

/// A response of the server with the given code and payload.
fn response(action: &str, statuscode: i64, data: Wire) -> Wire {
    Wire::Object(vec![
        entry("serverrequestid", words("srv-1")),
        entry("clientrequestid", words("")),
        entry("action", words(action)),
        entry("status", words(if statuscode == 2000 { "success" } else { "error" })),
        entry("statuscode", Wire::Int(statuscode)),
        entry("shortmessage", words("short")),
        entry("longmessage", words("long")),
        entry("responsedata", data),
    ])
}

fn session(id: &str) -> Wire {
    Wire::Object(vec![entry("apisessionid", words(id))])
}

fn listed(records: &Vec<DnsRecord>) -> Wire {
    let mut items = Vec::new();
    for r in records {
        items.push(r.to_wire());
    }
    Wire::Object(vec![entry("dnsrecords", Wire::List(items))])
}

fn refusal(statuscode: i32) -> ApiError {
    ApiError::ApiFailure {
        statuscode,
        shortmessage: "short".to_string(),
        longmessage: Some("long".to_string()),
    }
}

#[test]
fn constants_are_those_of_the_api() {
    assert_eq!(API_URL, "https://ccp.netcup.net/run/webservice/servers/endpoint.php?JSON");
    assert_eq!(SUCCESS_STATUS_CODE, 2000);
    assert_eq!(LOGIN_ACTION, "login");
    assert_eq!(LOGOUT_ACTION, "logout");
    assert_eq!(INFO_DOMAIN_ACTION, "infoDomain");
    assert_eq!(INFO_DNS_RECORDS_ACTION, "infoDnsRecords");
    assert_eq!(UPDATE_DNS_RECORDS_ACTION, "updateDnsRecords");
}

#[test]
fn login_request_carries_the_credentials() {
    let frame = create_login_session(&account());
    assert_eq!(frame.action, "login");
    assert_eq!(frame.param, account());
}

#[test]
fn logout_request_carries_the_session() {
    let frame = destroy_login_session(&account(), "S1".to_string());
    assert_eq!(frame.action, "logout");
    assert_eq!(
        frame.param,
        LogoutRequest {
            customernumber: 12345,
            apikey: "K".to_string(),
            apisessionid: "S1".to_string(),
            clientrequestid: None,
        }
    );
}

#[test]
fn domain_info_request_names_the_domain() {
    let frame = get_domain_info("S1".to_string(), "a.test".to_string(), &account());
    assert_eq!(frame.action, "infoDomain");
    assert_eq!(
        frame.param,
        InfoDomainRequest {
            domainname: "a.test".to_string(),
            customernumber: 12345,
            apikey: "K".to_string(),
            apisessionid: "S1".to_string(),
            clientrequestid: None,
            registryinformationflag: None,
        }
    );
}

#[test]
fn records_request_names_the_domain() {
    let frame = info_dns_records("S1".to_string(), "a.test".to_string(), &account());
    assert_eq!(frame.action, "infoDnsRecords");
    assert_eq!(
        frame.param,
        InfoDnsRecordsRequest {
            domainname: "a.test".to_string(),
            customernumber: 12345,
            apikey: "K".to_string(),
            apisessionid: "S1".to_string(),
            clientrequestid: None,
        }
    );
}

#[test]
fn update_request_holds_every_record_in_order() {
    let first = record("@", RecordType::A, "192.0.2.1");
    let second = record("www", RecordType::CNAME, "a.test");
    let third = record("@", RecordType::TXT, "v=spf1 -all");
    let frame = update_dns_records(
        "S1".to_string(),
        "a.test".to_string(),
        &account(),
        vec![
            ("one".to_string(), first.clone()),
            ("two".to_string(), second.clone()),
            ("three".to_string(), third.clone()),
        ],
    );
    assert_eq!(frame.action, "updateDnsRecords");
    assert_eq!(
        frame.param,
        UpdateDnsRecordsRequest {
            domainname: "a.test".to_string(),
            customernumber: 12345,
            apikey: "K".to_string(),
            apisessionid: "S1".to_string(),
            clientrequestid: None,
            dnsrecordset: DnsRecordSet { dnsrecords: vec![first, second, third] },
        }
    );
}

#[test]
fn update_request_of_no_records_holds_none() {
    let frame = update_dns_records("S1".to_string(), "a.test".to_string(), &account(), vec![]);
    assert_eq!(frame.param.dnsrecordset.dnsrecords, vec![]);
}

#[test]
fn stubs_do_nothing() {
    update_dns_zone();
    update_domain();
    update_handle();
}

#[test]
fn login_on_2000_yields_the_session() {
    let reply = Reply::Body(response("login", 2000, session("S1")));
    let expected = LoginResponse {
        serverrequestid: "srv-1".to_string(),
        clientrequestid: "".to_string(),
        action: "login".to_string(),
        status: "success".to_string(),
        statuscode: 2000,
        shortmessage: "short".to_string(),
        longmessage: "long".to_string(),
        responsedata: LoginResponseData { apisessionid: "S1".to_string() },
    };
    assert_eq!(login_outcome(&reply), Ok(expected));
}

#[test]
fn login_on_another_code_fails_with_that_code() {
    for code in [4001, 4013, 5029, 0, -1, 1999, 2001, 2011] {
        let reply = Reply::Body(response("login", code as i64, words("")));
        let outcome = login_outcome(&reply);
        assert_eq!(outcome, Err(refusal(code)));
        assert_eq!(outcome.unwrap_err().code(), Some(code));
    }
}

#[test]
fn refusal_does_not_look_at_responsedata() {
    let reply = Reply::Body(response("login", 4001, session("S1")));
    assert_eq!(login_outcome(&reply), Err(refusal(4001)));
    let reply = Reply::Body(response("updateDnsRecords", 4001, Wire::Null));
    assert_eq!(update_outcome(&reply), Err(refusal(4001)));
}

#[test]
fn refusal_keeps_an_absent_long_message_absent() {
    let doc = Wire::Object(vec![
        entry("serverrequestid", words("srv-1")),
        entry("clientrequestid", Wire::Null),
        entry("action", words("updateDnsRecords")),
        entry("status", words("error")),
        entry("statuscode", Wire::Int(4013)),
        entry("shortmessage", words("Validation Error.")),
        entry("longmessage", Wire::Null),
        entry("responsedata", words("")),
    ]);
    let expected = ApiError::ApiFailure {
        statuscode: 4013,
        shortmessage: "Validation Error.".to_string(),
        longmessage: None,
    };
    assert_eq!(update_outcome(&Reply::Body(doc)), Err(expected));
}

#[test]
fn reply_that_did_not_arrive_is_a_transport_error() {
    assert_eq!(login_outcome(&Reply::Failed), Err(ApiError::TransportError));
    assert_eq!(update_outcome(&Reply::Failed), Err(ApiError::TransportError));
    assert_eq!(dns_records_outcome(&Reply::Failed), Err(ApiError::TransportError));
    assert_eq!(domain_info_outcome(&Reply::Failed), Err(ApiError::TransportError));
    assert_eq!(accept(&Reply::Failed), Err(ApiError::TransportError));
}

#[test]
fn reply_that_is_no_document_is_a_decode_error() {
    assert_eq!(login_outcome(&Reply::Unreadable), Err(ApiError::DecodeError));
    assert_eq!(update_outcome(&Reply::Unreadable), Err(ApiError::DecodeError));
    assert_eq!(dns_records_outcome(&Reply::Unreadable), Err(ApiError::DecodeError));
    assert_eq!(domain_info_outcome(&Reply::Unreadable), Err(ApiError::DecodeError));
    assert_eq!(accept(&Reply::Unreadable), Err(ApiError::DecodeError));
}

#[test]
fn document_without_the_common_fields_is_a_decode_error() {
    for doc in [Wire::Null, words("ok"), Wire::List(vec![]), Wire::Object(vec![])] {
        assert_eq!(login_outcome(&Reply::Body(doc)), Err(ApiError::DecodeError));
    }
    let no_code = Wire::Object(vec![
        entry("serverrequestid", words("srv-1")),
        entry("clientrequestid", words("")),
        entry("action", words("login")),
        entry("status", words("success")),
        entry("shortmessage", words("short")),
        entry("longmessage", words("long")),
        entry("responsedata", session("S1")),
    ]);
    assert_eq!(login_outcome(&Reply::Body(no_code)), Err(ApiError::DecodeError));
}

#[test]
fn success_without_its_payload_is_a_decode_error() {
    let no_session = Reply::Body(response("login", 2000, words("")));
    assert_eq!(login_outcome(&no_session), Err(ApiError::DecodeError));
    let null_payload = Reply::Body(response("updateDnsRecords", 2000, Wire::Null));
    assert_eq!(update_outcome(&null_payload), Err(ApiError::DecodeError));
    assert_eq!(dns_records_outcome(&null_payload), Err(ApiError::DecodeError));
    assert_eq!(domain_info_outcome(&null_payload), Err(ApiError::DecodeError));
    let missing = Wire::Object(vec![
        entry("serverrequestid", words("srv-1")),
        entry("clientrequestid", words("")),
        entry("action", words("updateDnsRecords")),
        entry("status", words("success")),
        entry("statuscode", Wire::Int(2000)),
        entry("shortmessage", words("short")),
        entry("longmessage", words("long")),
    ]);
    assert_eq!(accept(&Reply::Body(response("x", 2000, Wire::Null))).is_ok(), true);
    assert_eq!(update_outcome(&Reply::Body(missing)), Err(ApiError::DecodeError));
}

#[test]
fn accept_hands_out_the_document_of_a_success() {
    let doc = response("login", 2000, session("S1"));
    let reply = Reply::Body(response("login", 2000, session("S1")));
    assert_eq!(accept(&reply), Ok(&doc));
    let refused = Reply::Body(response("login", 4001, words("")));
    assert_eq!(accept(&refused), Err(refusal(4001)));
}

#[test]
fn update_on_2000_yields_the_echoed_records() {
    let records = vec![record("@", RecordType::A, "192.0.2.1")];
    let reply = Reply::Body(response("updateDnsRecords", 2000, listed(&records)));
    let expected = UpdateDnsRecordsResponse {
        serverrequestid: "srv-1".to_string(),
        clientrequestid: Some("".to_string()),
        action: "updateDnsRecords".to_string(),
        status: "success".to_string(),
        statuscode: 2000,
        shortmessage: "short".to_string(),
        longmessage: Some("long".to_string()),
        responsedata: Some(DnsRecordsResponseData { dnsrecords: records }),
    };
    assert_eq!(update_outcome(&reply), Ok(expected));
}

#[test]
fn update_response_may_lack_request_id_and_long_message() {
    let records = vec![record("@", RecordType::A, "192.0.2.1")];
    let doc = Wire::Object(vec![
        entry("serverrequestid", words("srv-1")),
        entry("action", words("updateDnsRecords")),
        entry("status", words("success")),
        entry("statuscode", Wire::Int(2000)),
        entry("shortmessage", words("short")),
        entry("longmessage", Wire::Null),
        entry("responsedata", listed(&records)),
    ]);
    let expected = UpdateDnsRecordsResponse {
        serverrequestid: "srv-1".to_string(),
        clientrequestid: None,
        action: "updateDnsRecords".to_string(),
        status: "success".to_string(),
        statuscode: 2000,
        shortmessage: "short".to_string(),
        longmessage: None,
        responsedata: Some(DnsRecordsResponseData { dnsrecords: records }),
    };
    assert_eq!(update_outcome(&Reply::Body(doc)), Ok(expected));
}

#[test]
fn login_response_must_hold_request_id_and_long_message() {
    let doc = Wire::Object(vec![
        entry("serverrequestid", words("srv-1")),
        entry("clientrequestid", words("")),
        entry("action", words("login")),
        entry("status", words("success")),
        entry("statuscode", Wire::Int(2000)),
        entry("shortmessage", words("short")),
        entry("longmessage", Wire::Null),
        entry("responsedata", session("S1")),
    ]);
    assert_eq!(login_outcome(&Reply::Body(doc)), Err(ApiError::DecodeError));
}

#[test]
fn records_question_on_2000_yields_the_records() {
    let records =
        vec![record("@", RecordType::A, "192.0.2.1"), record("@", RecordType::MX, "mail.a.test")];
    let reply = Reply::Body(response("infoDnsRecords", 2000, listed(&records)));
    let expected = InfoDnsRecordsResponse {
        serverrequestid: "srv-1".to_string(),
        clientrequestid: "".to_string(),
        action: "infoDnsRecords".to_string(),
        status: "success".to_string(),
        statuscode: 2000,
        shortmessage: "short".to_string(),
        longmessage: "long".to_string(),
        responsedata: Some(DnsRecordsResponseData { dnsrecords: records }),
    };
    assert_eq!(dns_records_outcome(&reply), Ok(expected));
    let refused = Reply::Body(response("infoDnsRecords", 4013, words("")));
    assert_eq!(dns_records_outcome(&refused), Err(refusal(4013)));
}

#[test]
fn domain_info_on_2000_yields_the_text() {
    let reply = Reply::Body(response("infoDomain", 2000, words("registered")));
    let expected = InfoDomainResponse {
        serverrequestid: "srv-1".to_string(),
        clientrequestid: "".to_string(),
        action: "infoDomain".to_string(),
        status: "success".to_string(),
        statuscode: 2000,
        shortmessage: "short".to_string(),
        longmessage: "long".to_string(),
        responsedata: "registered".to_string(),
    };
    assert_eq!(domain_info_outcome(&reply), Ok(expected));
    let refused = Reply::Body(response("infoDomain", 4001, words("")));
    assert_eq!(domain_info_outcome(&refused), Err(refusal(4001)));
    let misshapen = Reply::Body(response("infoDomain", 2000, session("S1")));
    assert_eq!(domain_info_outcome(&misshapen), Err(ApiError::DecodeError));
}

#[test]
fn only_a_refusal_has_a_code() {
    assert_eq!(refusal(4001).code(), Some(4001));
    assert_eq!(ApiError::TransportError.code(), None);
    assert_eq!(ApiError::DecodeError.code(), None);
    assert_eq!(ApiError::SessionUnavailable.code(), None);
}

#[test]
fn default_login_response_is_a_placeholder() {
    let response = LoginResponse::default();
    assert_eq!(response.serverrequestid, "default");
    assert_eq!(response.clientrequestid, "default");
    assert_eq!(response.action, "default");
    assert_eq!(response.status, "default");
    assert_eq!(response.statuscode, 0);
    assert_eq!(response.shortmessage, "default");
    assert_eq!(response.longmessage, "default");
    assert_eq!(response.responsedata.apisessionid, "default");
}
