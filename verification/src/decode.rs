//! Reading the values of the API back out of documents.
//!
//! A struct is read from an object by the names of its fields. Members it
//! does not know are passed over. A field that must be there and is missing,
//! or holds another shape than it should, makes the whole reading fail; an
//! optional field may be missing or `null`.

use vstd::prelude::*;
use crate::api_objects::{
    records_view, text_view, DnsRecord, DnsRecordView, DnsRecordsResponseData,
    DnsRecordsResponseDataView, InfoDnsRecordsResponse, InfoDnsRecordsResponseView,
    InfoDomainResponse, InfoDomainResponseView, LoginResponse, LoginResponseData,
    LoginResponseDataView, LoginResponseView, RecordType, ResponseEnvelope, ResponseEnvelopeView,
    UpdateDnsRecordsResponse, UpdateDnsRecordsResponseView,
};
use crate::wire::{field, wires_view, Wire, WireView};

verus! {

/// The text under `name`: there only if the member exists and is a text.
pub open spec fn text_field(doc: WireView, name: Seq<char>) -> Option<Seq<char>> {
    match field(doc, name) {
        Some(WireView::Text(s)) => Some(s),
        _ => None,
    }
}

/// The optional text under `name`. A missing member and `null` both read as
/// an absent text; any shape but these and a text is a failure (`None`).
pub open spec fn optional_text_field(doc: WireView, name: Seq<char>) -> Option<Option<Seq<char>>> {
    match field(doc, name) {
        None => Some(None),
        Some(WireView::Null) => Some(None),
        Some(WireView::Text(s)) => Some(Some(s)),
        _ => None,
    }
}

/// The optional flag under `name`, read like an optional text.
pub open spec fn optional_flag_field(doc: WireView, name: Seq<char>) -> Option<Option<bool>> {
    match field(doc, name) {
        None => Some(None),
        Some(WireView::Null) => Some(None),
        Some(WireView::Bool(b)) => Some(Some(b)),
        _ => None,
    }
}

/// The 32-bit number under `name`: there only if the member exists and is a
/// number in that range.
pub open spec fn code_field(doc: WireView, name: Seq<char>) -> Option<int> {
    match field(doc, name) {
        Some(WireView::Int(n)) => if i32::MIN <= n <= i32::MAX {
            Some(n)
        } else {
            None
        },
        _ => None,
    }
}

/// The record type that the API knows under `name`, if any. Names are matched
/// to the letter.
pub open spec fn record_type_named(name: Seq<char>) -> Option<RecordType> {
    if name == "A"@ {
        Some(RecordType::A)
    } else if name == "AAAA"@ {
        Some(RecordType::AAAA)
    } else if name == "MX"@ {
        Some(RecordType::MX)
    } else if name == "TXT"@ {
        Some(RecordType::TXT)
    } else if name == "CNAME"@ {
        Some(RecordType::CNAME)
    } else if name == "SRV"@ {
        Some(RecordType::SRV)
    } else if name == "NS"@ {
        Some(RecordType::NS)
    } else if name == "DS"@ {
        Some(RecordType::DS)
    } else if name == "TLSA"@ {
        Some(RecordType::TLSA)
    } else if name == "CAA"@ {
        Some(RecordType::CAA)
    } else if name == "SSHFP"@ {
        Some(RecordType::SSHFP)
    } else if name == "SMIMEA"@ {
        Some(RecordType::SMIMEA)
    } else if name == "OPENPGPKEY"@ {
        Some(RecordType::OPENPGPKEY)
    } else {
        None
    }
}

/// The record type under `name`: there only if the member is a text that
/// names one.
pub open spec fn record_type_field(doc: WireView, name: Seq<char>) -> Option<RecordType> {
    match text_field(doc, name) {
        Some(s) => record_type_named(s),
        None => None,
    }
}

/// The record that a document holds, if it holds one: host name, type and
/// destination must be there, the other fields are optional.
pub open spec fn record_of(doc: WireView) -> Option<DnsRecordView> {
    if optional_text_field(doc, "id"@) is Some && text_field(doc, "hostname"@) is Some
        && record_type_field(doc, "type"@) is Some && optional_text_field(doc, "priority"@) is Some
        && text_field(doc, "destination"@) is Some && optional_flag_field(
        doc,
        "deleterecord"@,
    ) is Some && optional_text_field(doc, "state"@) is Some {
        Some(
            DnsRecordView {
                id: optional_text_field(doc, "id"@)->0,
                hostname: text_field(doc, "hostname"@)->0,
                dns_type: record_type_field(doc, "type"@)->0,
                priority: optional_text_field(doc, "priority"@)->0,
                destination: text_field(doc, "destination"@)->0,
                deleterecord: optional_flag_field(doc, "deleterecord"@)->0,
                state: optional_text_field(doc, "state"@)->0,
            },
        )
    } else {
        None
    }
}

/// The records that a document lists, if it is a list and every item of it
/// holds a record.
pub open spec fn records_of(doc: WireView) -> Option<Seq<DnsRecordView>> {
    match doc {
        WireView::List(items) => if forall|i: int|
            0 <= i < items.len() ==> record_of(#[trigger] items[i]) is Some {
            Some(Seq::new(items.len(), |i: int| record_of(items[i])->0))
        } else {
            None
        },
        _ => None,
    }
}

/// The records that a response carries: an object whose `dnsrecords` lists
/// them.
pub open spec fn records_data_of(doc: WireView) -> Option<DnsRecordsResponseDataView> {
    match field(doc, "dnsrecords"@) {
        Some(list) => match records_of(list) {
            Some(records) => Some(DnsRecordsResponseDataView { dnsrecords: records }),
            None => None,
        },
        None => None,
    }
}

/// The session that a login response carries: an object whose `apisessionid`
/// is a text.
pub open spec fn session_of(doc: WireView) -> Option<LoginResponseDataView> {
    match text_field(doc, "apisessionid"@) {
        Some(id) => Some(LoginResponseDataView { apisessionid: id }),
        None => None,
    }
}

/// What a response has in common with every other, read from its document.
/// Nothing is asked of `responsedata` here.
pub open spec fn envelope_of(doc: WireView) -> Option<ResponseEnvelopeView> {
    if text_field(doc, "serverrequestid"@) is Some && optional_text_field(
        doc,
        "clientrequestid"@,
    ) is Some && text_field(doc, "action"@) is Some && text_field(doc, "status"@) is Some
        && code_field(doc, "statuscode"@) is Some && text_field(doc, "shortmessage"@) is Some
        && optional_text_field(doc, "longmessage"@) is Some {
        Some(
            ResponseEnvelopeView {
                serverrequestid: text_field(doc, "serverrequestid"@)->0,
                clientrequestid: optional_text_field(doc, "clientrequestid"@)->0,
                action: text_field(doc, "action"@)->0,
                status: text_field(doc, "status"@)->0,
                statuscode: code_field(doc, "statuscode"@)->0,
                shortmessage: text_field(doc, "shortmessage"@)->0,
                longmessage: optional_text_field(doc, "longmessage"@)->0,
            },
        )
    } else {
        None
    }
}

/// Whether a text reads exactly as a literal does.
fn reads(text: &String, literal: &str) -> (same: bool)
    ensures
        same == (text@ == literal@),
{
    let wanted = literal.to_owned();
    *text == wanted
}

impl Wire {
    /// A copy of the text under `name`.
    pub fn text_field(&self, name: &str) -> (text: Option<String>)
        ensures
            text_view(text) == text_field(self@, name@),
    {
        match self.field(name) {
            Some(Wire::Text(s)) => Some(s.clone()),
            _ => None,
        }
    }

    /// A copy of the optional text under `name`; `None` where the member has
    /// a shape that no optional text has.
    pub fn optional_text_field(&self, name: &str) -> (text: Option<Option<String>>)
        ensures
            match text {
                Some(t) => optional_text_field(self@, name@) == Some(text_view(t)),
                None => optional_text_field(self@, name@) is None,
            },
    {
        match self.field(name) {
            None => Some(None),
            Some(Wire::Null) => Some(None),
            Some(Wire::Text(s)) => Some(Some(s.clone())),
            _ => None,
        }
    }

    /// The optional flag under `name`; `None` where the member has a shape
    /// that no optional flag has.
    pub fn optional_flag_field(&self, name: &str) -> (flag: Option<Option<bool>>)
        ensures
            flag == optional_flag_field(self@, name@),
    {
        match self.field(name) {
            None => Some(None),
            Some(Wire::Null) => Some(None),
            Some(Wire::Bool(b)) => Some(Some(*b)),
            _ => None,
        }
    }

    /// The 32-bit number under `name`.
    pub fn code_field(&self, name: &str) -> (code: Option<i32>)
        ensures
            match code {
                Some(n) => code_field(self@, name@) == Some(n as int),
                None => code_field(self@, name@) is None,
            },
    {
        match self.field(name) {
            Some(Wire::Int(n)) => {
                if -2147483648 <= *n && *n <= 2147483647 {
                    Some(*n as i32)
                } else {
                    None
                }
            },
            _ => None,
        }
    }
}

impl RecordType {
    /// The record type that the API knows under `name`.
    pub fn from_name(name: &String) -> (kind: Option<RecordType>)
        ensures
            kind == record_type_named(name@),
    {
        if reads(name, "A") {
            Some(RecordType::A)
        } else if reads(name, "AAAA") {
            Some(RecordType::AAAA)
        } else if reads(name, "MX") {
            Some(RecordType::MX)
        } else if reads(name, "TXT") {
            Some(RecordType::TXT)
        } else if reads(name, "CNAME") {
            Some(RecordType::CNAME)
        } else if reads(name, "SRV") {
            Some(RecordType::SRV)
        } else if reads(name, "NS") {
            Some(RecordType::NS)
        } else if reads(name, "DS") {
            Some(RecordType::DS)
        } else if reads(name, "TLSA") {
            Some(RecordType::TLSA)
        } else if reads(name, "CAA") {
            Some(RecordType::CAA)
        } else if reads(name, "SSHFP") {
            Some(RecordType::SSHFP)
        } else if reads(name, "SMIMEA") {
            Some(RecordType::SMIMEA)
        } else if reads(name, "OPENPGPKEY") {
            Some(RecordType::OPENPGPKEY)
        } else {
            None
        }
    }
}

impl DnsRecord {
    /// Reads a record from its document.
    pub fn decode(doc: &Wire) -> (record: Option<DnsRecord>)
        ensures
            match record {
                Some(r) => record_of(doc@) == Some(r@),
                None => record_of(doc@) is None,
            },
    {
        let id = doc.optional_text_field("id");
        let hostname = doc.text_field("hostname");
        let kind = match doc.text_field("type") {
            Some(name) => RecordType::from_name(&name),
            None => None,
        };
        let priority = doc.optional_text_field("priority");
        let destination = doc.text_field("destination");
        let deleterecord = doc.optional_flag_field("deleterecord");
        let state = doc.optional_text_field("state");
        match (id, hostname, kind, priority, destination, deleterecord, state) {
            (
                Some(id),
                Some(hostname),
                Some(dns_type),
                Some(priority),
                Some(destination),
                Some(deleterecord),
                Some(state),
            ) => Some(
                DnsRecord { id, hostname, dns_type, priority, destination, deleterecord, state },
            ),
            _ => None,
        }
    }
}

/// Reads the records that a document lists.
pub fn decode_records(doc: &Wire) -> (records: Option<Vec<DnsRecord>>)
    ensures
        match records {
            Some(rs) => records_of(doc@) == Some(records_view(rs@)),
            None => records_of(doc@) is None,
        },
{
    match doc {
        Wire::List(items) => {
            let ghost views = wires_view(items@);
            assert(doc@->List_0 =~= views);
            let mut records: Vec<DnsRecord> = Vec::new();
            let mut i: usize = 0;
            while i < items.len()
                invariant
                    0 <= i <= items.len(),
                    views == wires_view(items@),
                    doc@ == WireView::List(views),
                    records@.len() == i,
                    forall|k: int|
                        0 <= k < i ==> record_of(#[trigger] views[k]) == Some(records@[k]@),
                decreases items.len() - i,
            {
                assert(views[i as int] == items@[i as int]@);
                match DnsRecord::decode(&items[i]) {
                    Some(record) => {
                        records.push(record);
                    },
                    None => {
                        return None;
                    },
                }
                i += 1;
            }
            assert(records_of(doc@)->0 =~= records_view(records@));
            Some(records)
        },
        _ => None,
    }
}

impl DnsRecordsResponseData {
    /// Reads the records that a response carries.
    pub fn decode(doc: &Wire) -> (data: Option<DnsRecordsResponseData>)
        ensures
            match data {
                Some(d) => records_data_of(doc@) == Some(d@),
                None => records_data_of(doc@) is None,
            },
    {
        match doc.field("dnsrecords") {
            Some(list) => match decode_records(list) {
                Some(dnsrecords) => Some(DnsRecordsResponseData { dnsrecords }),
                None => None,
            },
            None => None,
        }
    }
}

impl LoginResponseData {
    /// Reads the session that a login response carries.
    pub fn decode(doc: &Wire) -> (data: Option<LoginResponseData>)
        ensures
            match data {
                Some(d) => session_of(doc@) == Some(d@),
                None => session_of(doc@) is None,
            },
    {
        match doc.text_field("apisessionid") {
            Some(apisessionid) => Some(LoginResponseData { apisessionid }),
            None => None,
        }
    }
}

impl ResponseEnvelope {
    /// Reads what a response has in common with every other.
    pub fn decode(doc: &Wire) -> (envelope: Option<ResponseEnvelope>)
        ensures
            match envelope {
                Some(e) => envelope_of(doc@) == Some(e@),
                None => envelope_of(doc@) is None,
            },
    {
        let serverrequestid = doc.text_field("serverrequestid");
        let clientrequestid = doc.optional_text_field("clientrequestid");
        let action = doc.text_field("action");
        let status = doc.text_field("status");
        let statuscode = doc.code_field("statuscode");
        let shortmessage = doc.text_field("shortmessage");
        let longmessage = doc.optional_text_field("longmessage");
        match (serverrequestid, clientrequestid, action, status, statuscode, shortmessage, longmessage) {
            (
                Some(serverrequestid),
                Some(clientrequestid),
                Some(action),
                Some(status),
                Some(statuscode),
                Some(shortmessage),
                Some(longmessage),
            ) => Some(
                ResponseEnvelope {
                    serverrequestid,
                    clientrequestid,
                    action,
                    status,
                    statuscode,
                    shortmessage,
                    longmessage,
                },
            ),
            _ => None,
        }
    }
}

/// The login response that a document holds: the common fields, all of them
/// present, and a session under `responsedata`.
pub open spec fn login_response_of(doc: WireView) -> Option<LoginResponseView> {
    match (envelope_of(doc), field(doc, "responsedata"@)) {
        (Some(e), Some(data)) => if e.clientrequestid is Some && e.longmessage is Some
            && session_of(data) is Some {
            Some(
                LoginResponseView {
                    serverrequestid: e.serverrequestid,
                    clientrequestid: e.clientrequestid->0,
                    action: e.action,
                    status: e.status,
                    statuscode: e.statuscode,
                    shortmessage: e.shortmessage,
                    longmessage: e.longmessage->0,
                    responsedata: session_of(data)->0,
                },
            )
        } else {
            None
        },
        _ => None,
    }
}

/// The domain-information response that a document holds: the common fields,
/// all of them present, and a text under `responsedata`.
pub open spec fn info_domain_response_of(doc: WireView) -> Option<InfoDomainResponseView> {
    match (envelope_of(doc), text_field(doc, "responsedata"@)) {
        (Some(e), Some(data)) => if e.clientrequestid is Some && e.longmessage is Some {
            Some(
                InfoDomainResponseView {
                    serverrequestid: e.serverrequestid,
                    clientrequestid: e.clientrequestid->0,
                    action: e.action,
                    status: e.status,
                    statuscode: e.statuscode,
                    shortmessage: e.shortmessage,
                    longmessage: e.longmessage->0,
                    responsedata: data,
                },
            )
        } else {
            None
        },
        _ => None,
    }
}

/// The records response that a document holds: the common fields, all of
/// them present, and the records under `responsedata`.
pub open spec fn info_dns_records_response_of(doc: WireView) -> Option<InfoDnsRecordsResponseView> {
    match (envelope_of(doc), field(doc, "responsedata"@)) {
        (Some(e), Some(data)) => if e.clientrequestid is Some && e.longmessage is Some
            && records_data_of(data) is Some {
            Some(
                InfoDnsRecordsResponseView {
                    serverrequestid: e.serverrequestid,
                    clientrequestid: e.clientrequestid->0,
                    action: e.action,
                    status: e.status,
                    statuscode: e.statuscode,
                    shortmessage: e.shortmessage,
                    longmessage: e.longmessage->0,
                    responsedata: records_data_of(data),
                },
            )
        } else {
            None
        },
        _ => None,
    }
}

/// The update response that a document holds: the common fields and the
/// records under `responsedata`.
pub open spec fn update_response_of(doc: WireView) -> Option<UpdateDnsRecordsResponseView> {
    match (envelope_of(doc), field(doc, "responsedata"@)) {
        (Some(e), Some(data)) => if records_data_of(data) is Some {
            Some(
                UpdateDnsRecordsResponseView {
                    serverrequestid: e.serverrequestid,
                    clientrequestid: e.clientrequestid,
                    action: e.action,
                    status: e.status,
                    statuscode: e.statuscode,
                    shortmessage: e.shortmessage,
                    longmessage: e.longmessage,
                    responsedata: records_data_of(data),
                },
            )
        } else {
            None
        },
        _ => None,
    }
}

impl LoginResponse {
    /// Reads a login response from its document.
    pub fn decode(doc: &Wire) -> (response: Option<LoginResponse>)
        ensures
            match response {
                Some(r) => login_response_of(doc@) == Some(r@),
                None => login_response_of(doc@) is None,
            },
    {
        let data = match doc.field("responsedata") {
            Some(data) => LoginResponseData::decode(data),
            None => None,
        };
        match (ResponseEnvelope::decode(doc), data) {
            (Some(e), Some(responsedata)) => match (e.clientrequestid, e.longmessage) {
                (Some(clientrequestid), Some(longmessage)) => Some(
                    LoginResponse {
                        serverrequestid: e.serverrequestid,
                        clientrequestid,
                        action: e.action,
                        status: e.status,
                        statuscode: e.statuscode,
                        shortmessage: e.shortmessage,
                        longmessage,
                        responsedata,
                    },
                ),
                _ => None,
            },
            _ => None,
        }
    }
}

impl InfoDomainResponse {
    /// Reads a domain-information response from its document.
    pub fn decode(doc: &Wire) -> (response: Option<InfoDomainResponse>)
        ensures
            match response {
                Some(r) => info_domain_response_of(doc@) == Some(r@),
                None => info_domain_response_of(doc@) is None,
            },
    {
        match (ResponseEnvelope::decode(doc), doc.text_field("responsedata")) {
            (Some(e), Some(responsedata)) => match (e.clientrequestid, e.longmessage) {
                (Some(clientrequestid), Some(longmessage)) => Some(
                    InfoDomainResponse {
                        serverrequestid: e.serverrequestid,
                        clientrequestid,
                        action: e.action,
                        status: e.status,
                        statuscode: e.statuscode,
                        shortmessage: e.shortmessage,
                        longmessage,
                        responsedata,
                    },
                ),
                _ => None,
            },
            _ => None,
        }
    }
}

impl InfoDnsRecordsResponse {
    /// Reads a records response from its document.
    pub fn decode(doc: &Wire) -> (response: Option<InfoDnsRecordsResponse>)
        ensures
            match response {
                Some(r) => info_dns_records_response_of(doc@) == Some(r@),
                None => info_dns_records_response_of(doc@) is None,
            },
    {
        let data = match doc.field("responsedata") {
            Some(data) => DnsRecordsResponseData::decode(data),
            None => None,
        };
        match (ResponseEnvelope::decode(doc), data) {
            (Some(e), Some(responsedata)) => match (e.clientrequestid, e.longmessage) {
                (Some(clientrequestid), Some(longmessage)) => Some(
                    InfoDnsRecordsResponse {
                        serverrequestid: e.serverrequestid,
                        clientrequestid,
                        action: e.action,
                        status: e.status,
                        statuscode: e.statuscode,
                        shortmessage: e.shortmessage,
                        longmessage,
                        responsedata: Some(responsedata),
                    },
                ),
                _ => None,
            },
            _ => None,
        }
    }
}

impl UpdateDnsRecordsResponse {
    /// Reads an update response from its document.
    pub fn decode(doc: &Wire) -> (response: Option<UpdateDnsRecordsResponse>)
        ensures
            match response {
                Some(r) => update_response_of(doc@) == Some(r@),
                None => update_response_of(doc@) is None,
            },
    {
        let data = match doc.field("responsedata") {
            Some(data) => DnsRecordsResponseData::decode(data),
            None => None,
        };
        match (ResponseEnvelope::decode(doc), data) {
            (Some(e), Some(responsedata)) => Some(
                UpdateDnsRecordsResponse {
                    serverrequestid: e.serverrequestid,
                    clientrequestid: e.clientrequestid,
                    action: e.action,
                    status: e.status,
                    statuscode: e.statuscode,
                    shortmessage: e.shortmessage,
                    longmessage: e.longmessage,
                    responsedata: Some(responsedata),
                },
            ),
            _ => None,
        }
    }
}

} // verus!
