//! What is written can be read back: the layout loses nothing.
//!
//! Each law takes the value of a request or of a record, writes it as the
//! encoder does and reads the fields back as the decoder does. What comes
//! back is what went in.

use vstd::prelude::*;
use crate::api_objects::{
    DnsRecordView, DnsRecordsResponseDataView, InfoDnsRecordsRequestView, InfoDomainRequestView,
    LoginResponseDataView, LogoutRequestView, RecordType, ResponseEnvelopeView,
    UpdateDnsRecordsRequestView,
};
use crate::codec::{
    credentials_wire, frame_wire, info_dns_records_wire, info_domain_wire, logout_wire,
    record_set_wire, record_type_name, record_wire, records_data_wire, records_wire,
    response_wire, session_wire, update_wire,
};
use crate::configuration::CredentialsView;
use crate::decode::{
    code_field, envelope_of, optional_flag_field, optional_text_field, record_of,
    record_type_field, record_type_named, records_data_of, records_of, session_of, text_field,
};
use crate::wire::{field, lemma_member_at, WireView};

verus! {

/// A text of the given length that begins with the given letter. Two texts
/// that differ in either are different texts.
pub open spec fn begins(text: Seq<char>, len: nat, first: char) -> bool {
    text.len() == len && text[0] == first
}

/// Every record type is found again under its own name.
pub proof fn lemma_record_type_round_trip(kind: RecordType)
    ensures
        record_type_named(record_type_name(kind)) == Some(kind),
{
    reveal_strlit("A");
    reveal_strlit("AAAA");
    reveal_strlit("MX");
    reveal_strlit("TXT");
    reveal_strlit("CNAME");
    reveal_strlit("SRV");
    reveal_strlit("NS");
    reveal_strlit("DS");
    reveal_strlit("TLSA");
    reveal_strlit("CAA");
    reveal_strlit("SSHFP");
    reveal_strlit("SMIMEA");
    reveal_strlit("OPENPGPKEY");
    assert(begins("A"@, 1, 'A'));
    assert(begins("AAAA"@, 4, 'A'));
    assert(begins("MX"@, 2, 'M'));
    assert(begins("TXT"@, 3, 'T'));
    assert(begins("CNAME"@, 5, 'C'));
    assert(begins("SRV"@, 3, 'S'));
    assert(begins("NS"@, 2, 'N'));
    assert(begins("DS"@, 2, 'D'));
    assert(begins("TLSA"@, 4, 'T'));
    assert(begins("CAA"@, 3, 'C'));
    assert(begins("SSHFP"@, 5, 'S'));
    assert(begins("SMIMEA"@, 6, 'S'));
    assert(begins("OPENPGPKEY"@, 10, 'O'));
}

/// The envelope of a request gives back the action's name and the parameter.
pub proof fn lemma_frame_round_trip(action: Seq<char>, param: WireView)
    ensures
        text_field(frame_wire(action, param), "action"@) == Some(action),
        field(frame_wire(action, param), "param"@) == Some(param),
{
    reveal_strlit("action");
    reveal_strlit("param");
    assert(begins("action"@, 6, 'a'));
    assert(begins("param"@, 5, 'p'));
    let members = frame_wire(action, param)->Object_0;
    lemma_member_at(members, "action"@, 0);
    lemma_member_at(members, "param"@, 1);
}

/// The document of a login's credentials gives back the customer number, the
/// API key and the password.
pub proof fn lemma_credentials_round_trip(c: CredentialsView)
    requires
        i32::MIN <= c.customernumber <= i32::MAX,
    ensures
        code_field(credentials_wire(c), "customernumber"@) == Some(c.customernumber),
        text_field(credentials_wire(c), "apikey"@) == Some(c.apikey),
        text_field(credentials_wire(c), "apipassword"@) == Some(c.apipassword),
{
    reveal_strlit("customernumber");
    reveal_strlit("apikey");
    reveal_strlit("apipassword");
    assert(begins("customernumber"@, 14, 'c'));
    assert(begins("apikey"@, 6, 'a'));
    assert(begins("apipassword"@, 11, 'a'));
    let members = credentials_wire(c)->Object_0;
    lemma_member_at(members, "customernumber"@, 0);
    lemma_member_at(members, "apikey"@, 1);
    lemma_member_at(members, "apipassword"@, 2);
}

/// The document of a logout parameter gives back the customer number, the
/// API key and the session id, and no request id where none was given.
pub proof fn lemma_logout_round_trip(p: LogoutRequestView)
    requires
        i32::MIN <= p.customernumber <= i32::MAX,
    ensures
        code_field(logout_wire(p), "customernumber"@) == Some(p.customernumber),
        text_field(logout_wire(p), "apikey"@) == Some(p.apikey),
        text_field(logout_wire(p), "apisessionid"@) == Some(p.apisessionid),
        optional_text_field(logout_wire(p), "clientrequestid"@) == Some(p.clientrequestid),
{
    reveal_strlit("customernumber");
    reveal_strlit("apikey");
    reveal_strlit("apisessionid");
    reveal_strlit("clientrequestid");
    assert(begins("customernumber"@, 14, 'c'));
    assert(begins("apikey"@, 6, 'a'));
    assert(begins("apisessionid"@, 12, 'a'));
    assert(begins("clientrequestid"@, 15, 'c'));
    let members = logout_wire(p)->Object_0;
    lemma_member_at(members, "customernumber"@, 0);
    lemma_member_at(members, "apikey"@, 1);
    lemma_member_at(members, "apisessionid"@, 2);
    lemma_member_at(members, "clientrequestid"@, 3);
}

/// The document of a domain-information parameter gives back every field.
pub proof fn lemma_info_domain_round_trip(p: InfoDomainRequestView)
    requires
        i32::MIN <= p.customernumber <= i32::MAX,
    ensures
        text_field(info_domain_wire(p), "domainname"@) == Some(p.domainname),
        code_field(info_domain_wire(p), "customernumber"@) == Some(p.customernumber),
        text_field(info_domain_wire(p), "apikey"@) == Some(p.apikey),
        text_field(info_domain_wire(p), "apisessionid"@) == Some(p.apisessionid),
        optional_text_field(info_domain_wire(p), "clientrequestid"@) == Some(p.clientrequestid),
        optional_flag_field(info_domain_wire(p), "registryinformationflag"@) == Some(
            p.registryinformationflag,
        ),
{
    reveal_strlit("domainname");
    reveal_strlit("customernumber");
    reveal_strlit("apikey");
    reveal_strlit("apisessionid");
    reveal_strlit("clientrequestid");
    reveal_strlit("registryinformationflag");
    assert(begins("domainname"@, 10, 'd'));
    assert(begins("customernumber"@, 14, 'c'));
    assert(begins("apikey"@, 6, 'a'));
    assert(begins("apisessionid"@, 12, 'a'));
    assert(begins("clientrequestid"@, 15, 'c'));
    assert(begins("registryinformationflag"@, 23, 'r'));
    let members = info_domain_wire(p)->Object_0;
    lemma_member_at(members, "domainname"@, 0);
    lemma_member_at(members, "customernumber"@, 1);
    lemma_member_at(members, "apikey"@, 2);
    lemma_member_at(members, "apisessionid"@, 3);
    lemma_member_at(members, "clientrequestid"@, 4);
    lemma_member_at(members, "registryinformationflag"@, 5);
}

/// The document of a parameter that asks for a domain's records gives back
/// every field.
pub proof fn lemma_info_dns_records_round_trip(p: InfoDnsRecordsRequestView)
    requires
        i32::MIN <= p.customernumber <= i32::MAX,
    ensures
        text_field(info_dns_records_wire(p), "domainname"@) == Some(p.domainname),
        code_field(info_dns_records_wire(p), "customernumber"@) == Some(p.customernumber),
        text_field(info_dns_records_wire(p), "apikey"@) == Some(p.apikey),
        text_field(info_dns_records_wire(p), "apisessionid"@) == Some(p.apisessionid),
        optional_text_field(info_dns_records_wire(p), "clientrequestid"@) == Some(
            p.clientrequestid,
        ),
{
    reveal_strlit("domainname");
    reveal_strlit("customernumber");
    reveal_strlit("apikey");
    reveal_strlit("apisessionid");
    reveal_strlit("clientrequestid");
    assert(begins("domainname"@, 10, 'd'));
    assert(begins("customernumber"@, 14, 'c'));
    assert(begins("apikey"@, 6, 'a'));
    assert(begins("apisessionid"@, 12, 'a'));
    assert(begins("clientrequestid"@, 15, 'c'));
    let members = info_dns_records_wire(p)->Object_0;
    lemma_member_at(members, "domainname"@, 0);
    lemma_member_at(members, "customernumber"@, 1);
    lemma_member_at(members, "apikey"@, 2);
    lemma_member_at(members, "apisessionid"@, 3);
    lemma_member_at(members, "clientrequestid"@, 4);
}

/// The document of one record gives back the record.
pub proof fn lemma_record_round_trip(r: DnsRecordView)
    ensures
        record_of(record_wire(r)) == Some(r),
{
    reveal_strlit("id");
    reveal_strlit("hostname");
    reveal_strlit("type");
    reveal_strlit("priority");
    reveal_strlit("destination");
    reveal_strlit("deleterecord");
    reveal_strlit("state");
    assert(begins("id"@, 2, 'i'));
    assert(begins("hostname"@, 8, 'h'));
    assert(begins("type"@, 4, 't'));
    assert(begins("priority"@, 8, 'p'));
    assert(begins("destination"@, 11, 'd'));
    assert(begins("deleterecord"@, 12, 'd'));
    assert(begins("state"@, 5, 's'));
    let doc = record_wire(r);
    let members = doc->Object_0;
    lemma_member_at(members, "id"@, 0);
    lemma_member_at(members, "hostname"@, 1);
    lemma_member_at(members, "type"@, 2);
    lemma_member_at(members, "priority"@, 3);
    lemma_member_at(members, "destination"@, 4);
    lemma_member_at(members, "deleterecord"@, 5);
    lemma_member_at(members, "state"@, 6);
    lemma_record_type_round_trip(r.dns_type);
    assert(optional_text_field(doc, "id"@) == Some(r.id));
    assert(text_field(doc, "hostname"@) == Some(r.hostname));
    assert(record_type_field(doc, "type"@) == Some(r.dns_type));
    assert(optional_text_field(doc, "priority"@) == Some(r.priority));
    assert(text_field(doc, "destination"@) == Some(r.destination));
    assert(optional_flag_field(doc, "deleterecord"@) == Some(r.deleterecord));
    assert(optional_text_field(doc, "state"@) == Some(r.state));
}

/// The document of a run of records gives back the records, each in its
/// place.
pub proof fn lemma_records_round_trip(records: Seq<DnsRecordView>)
    ensures
        records_of(records_wire(records)) == Some(records),
{
    let items = records_wire(records)->List_0;
    assert forall|i: int| 0 <= i < items.len() implies record_of(#[trigger] items[i]) == Some(
        records[i],
    ) by {
        lemma_record_round_trip(records[i]);
    }
    assert(records_of(records_wire(records))->0 =~= records);
}

/// The document of an update parameter gives back every field, the whole
/// record set among them.
pub proof fn lemma_update_round_trip(p: UpdateDnsRecordsRequestView)
    requires
        i32::MIN <= p.customernumber <= i32::MAX,
    ensures
        text_field(update_wire(p), "domainname"@) == Some(p.domainname),
        code_field(update_wire(p), "customernumber"@) == Some(p.customernumber),
        text_field(update_wire(p), "apikey"@) == Some(p.apikey),
        text_field(update_wire(p), "apisessionid"@) == Some(p.apisessionid),
        optional_text_field(update_wire(p), "clientrequestid"@) == Some(p.clientrequestid),
        field(update_wire(p), "dnsrecordset"@) == Some(record_set_wire(p.dnsrecordset)),
        field(record_set_wire(p.dnsrecordset), "dnsrecords"@) == Some(
            records_wire(p.dnsrecordset.dnsrecords),
        ),
        records_of(records_wire(p.dnsrecordset.dnsrecords)) == Some(p.dnsrecordset.dnsrecords),
{
    reveal_strlit("domainname");
    reveal_strlit("customernumber");
    reveal_strlit("apikey");
    reveal_strlit("apisessionid");
    reveal_strlit("clientrequestid");
    reveal_strlit("dnsrecordset");
    assert(begins("domainname"@, 10, 'd'));
    assert(begins("customernumber"@, 14, 'c'));
    assert(begins("apikey"@, 6, 'a'));
    assert(begins("apisessionid"@, 12, 'a'));
    assert(begins("clientrequestid"@, 15, 'c'));
    assert(begins("dnsrecordset"@, 12, 'd'));
    let members = update_wire(p)->Object_0;
    lemma_member_at(members, "domainname"@, 0);
    lemma_member_at(members, "customernumber"@, 1);
    lemma_member_at(members, "apikey"@, 2);
    lemma_member_at(members, "apisessionid"@, 3);
    lemma_member_at(members, "clientrequestid"@, 4);
    lemma_member_at(members, "dnsrecordset"@, 5);
    lemma_member_at(record_set_wire(p.dnsrecordset)->Object_0, "dnsrecords"@, 0);
    lemma_records_round_trip(p.dnsrecordset.dnsrecords);
}

/// The document of a session gives back the session.
pub proof fn lemma_session_round_trip(data: LoginResponseDataView)
    ensures
        session_of(session_wire(data)) == Some(data),
{
    lemma_member_at(session_wire(data)->Object_0, "apisessionid"@, 0);
}

/// The document of a response's records gives back the records.
pub proof fn lemma_records_data_round_trip(data: DnsRecordsResponseDataView)
    ensures
        records_data_of(records_data_wire(data)) == Some(data),
{
    lemma_member_at(records_data_wire(data)->Object_0, "dnsrecords"@, 0);
    lemma_records_round_trip(data.dnsrecords);
}

/// The document of a response gives back the common fields and, under
/// `responsedata`, what the action answered with.
pub proof fn lemma_response_round_trip(envelope: ResponseEnvelopeView, data: WireView)
    requires
        i32::MIN <= envelope.statuscode <= i32::MAX,
    ensures
        envelope_of(response_wire(envelope, data)) == Some(envelope),
        field(response_wire(envelope, data), "responsedata"@) == Some(data),
{
    reveal_strlit("serverrequestid");
    reveal_strlit("clientrequestid");
    reveal_strlit("action");
    reveal_strlit("status");
    reveal_strlit("statuscode");
    reveal_strlit("shortmessage");
    reveal_strlit("longmessage");
    reveal_strlit("responsedata");
    assert(begins("serverrequestid"@, 15, 's'));
    assert(begins("clientrequestid"@, 15, 'c'));
    assert(begins("action"@, 6, 'a'));
    assert(begins("status"@, 6, 's'));
    assert(begins("statuscode"@, 10, 's'));
    assert(begins("shortmessage"@, 12, 's'));
    assert(begins("longmessage"@, 11, 'l'));
    assert(begins("responsedata"@, 12, 'r'));
    let doc = response_wire(envelope, data);
    let members = doc->Object_0;
    lemma_member_at(members, "serverrequestid"@, 0);
    lemma_member_at(members, "clientrequestid"@, 1);
    lemma_member_at(members, "action"@, 2);
    lemma_member_at(members, "status"@, 3);
    lemma_member_at(members, "statuscode"@, 4);
    lemma_member_at(members, "shortmessage"@, 5);
    lemma_member_at(members, "longmessage"@, 6);
    lemma_member_at(members, "responsedata"@, 7);
    assert(text_field(doc, "serverrequestid"@) == Some(envelope.serverrequestid));
    assert(optional_text_field(doc, "clientrequestid"@) == Some(envelope.clientrequestid));
    assert(text_field(doc, "action"@) == Some(envelope.action));
    assert(text_field(doc, "status"@) == Some(envelope.status));
    assert(code_field(doc, "statuscode"@) == Some(envelope.statuscode));
    assert(text_field(doc, "shortmessage"@) == Some(envelope.shortmessage));
    assert(optional_text_field(doc, "longmessage"@) == Some(envelope.longmessage));
}

} // verus!
