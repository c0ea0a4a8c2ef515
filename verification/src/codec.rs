//! How the values of the API are laid out as documents.
//!
//! A request becomes the object `{action, param}`; every struct becomes an
//! object that names its fields as the API names them, an absent optional
//! field becomes `null`, a record type becomes its name. The functions here
//! write that layout; `decode` reads it back.

use vstd::prelude::*;
use crate::api_objects::{
    records_view, text_view, DnsRecord, DnsRecordSet, DnsRecordSetView, DnsRecordView,
    DnsRecordsResponseDataView, LoginResponseDataView, ResponseEnvelopeView, InfoDnsRecordsFrame, InfoDnsRecordsRequest, InfoDnsRecordsRequestView, InfoDomainRequest,
    InfoDomainRequestFrame, InfoDomainRequestView, LoginRequestFrame, LogoutRequest,
    LogoutRequestFrame, LogoutRequestView, RecordType, UpdateDnsRecordsRequest,
    UpdateDnsRecordsRequestFrame, UpdateDnsRecordsRequestView,
};
use crate::configuration::{Credentials, CredentialsView};
use crate::wire::{members_view, named, wires_view, Member, Wire, WireView};

verus! {

/// The name under which the API knows a record type.
pub open spec fn record_type_name(kind: RecordType) -> Seq<char> {
    match kind {
        RecordType::A => "A"@,
        RecordType::AAAA => "AAAA"@,
        RecordType::MX => "MX"@,
        RecordType::TXT => "TXT"@,
        RecordType::CNAME => "CNAME"@,
        RecordType::SRV => "SRV"@,
        RecordType::NS => "NS"@,
        RecordType::DS => "DS"@,
        RecordType::TLSA => "TLSA"@,
        RecordType::CAA => "CAA"@,
        RecordType::SSHFP => "SSHFP"@,
        RecordType::SMIMEA => "SMIMEA"@,
        RecordType::OPENPGPKEY => "OPENPGPKEY"@,
    }
}

/// The document of an optional text: the text, or `null`.
pub open spec fn optional_text_wire(text: Option<Seq<char>>) -> WireView {
    match text {
        Some(s) => WireView::Text(s),
        None => WireView::Null,
    }
}

/// The document of an optional flag: the flag, or `null`.
pub open spec fn optional_flag_wire(flag: Option<bool>) -> WireView {
    match flag {
        Some(b) => WireView::Bool(b),
        None => WireView::Null,
    }
}

/// The document of the credentials, which is the parameter of a login.
pub open spec fn credentials_wire(c: CredentialsView) -> WireView {
    WireView::Object(
        seq![
            named("customernumber"@, WireView::Int(c.customernumber)),
            named("apikey"@, WireView::Text(c.apikey)),
            named("apipassword"@, WireView::Text(c.apipassword)),
        ],
    )
}

/// The document of one record.
pub open spec fn record_wire(r: DnsRecordView) -> WireView {
    WireView::Object(
        seq![
            named("id"@, optional_text_wire(r.id)),
            named("hostname"@, WireView::Text(r.hostname)),
            named("type"@, WireView::Text(record_type_name(r.dns_type))),
            named("priority"@, optional_text_wire(r.priority)),
            named("destination"@, WireView::Text(r.destination)),
            named("deleterecord"@, optional_flag_wire(r.deleterecord)),
            named("state"@, optional_text_wire(r.state)),
        ],
    )
}

/// The document of a run of records: the list of their documents.
pub open spec fn records_wire(records: Seq<DnsRecordView>) -> WireView {
    WireView::List(Seq::new(records.len(), |i: int| record_wire(records[i])))
}

/// The document of a record set.
pub open spec fn record_set_wire(set: DnsRecordSetView) -> WireView {
    WireView::Object(seq![named("dnsrecords"@, records_wire(set.dnsrecords))])
}

/// The document of a logout parameter.
pub open spec fn logout_wire(p: LogoutRequestView) -> WireView {
    WireView::Object(
        seq![
            named("customernumber"@, WireView::Int(p.customernumber)),
            named("apikey"@, WireView::Text(p.apikey)),
            named("apisessionid"@, WireView::Text(p.apisessionid)),
            named("clientrequestid"@, optional_text_wire(p.clientrequestid)),
        ],
    )
}

/// The document of a domain-information parameter.
pub open spec fn info_domain_wire(p: InfoDomainRequestView) -> WireView {
    WireView::Object(
        seq![
            named("domainname"@, WireView::Text(p.domainname)),
            named("customernumber"@, WireView::Int(p.customernumber)),
            named("apikey"@, WireView::Text(p.apikey)),
            named("apisessionid"@, WireView::Text(p.apisessionid)),
            named("clientrequestid"@, optional_text_wire(p.clientrequestid)),
            named("registryinformationflag"@, optional_flag_wire(p.registryinformationflag)),
        ],
    )
}

/// The document of a parameter that asks for a domain's records.
pub open spec fn info_dns_records_wire(p: InfoDnsRecordsRequestView) -> WireView {
    WireView::Object(
        seq![
            named("domainname"@, WireView::Text(p.domainname)),
            named("customernumber"@, WireView::Int(p.customernumber)),
            named("apikey"@, WireView::Text(p.apikey)),
            named("apisessionid"@, WireView::Text(p.apisessionid)),
            named("clientrequestid"@, optional_text_wire(p.clientrequestid)),
        ],
    )
}

/// The document of an update parameter.
pub open spec fn update_wire(p: UpdateDnsRecordsRequestView) -> WireView {
    WireView::Object(
        seq![
            named("domainname"@, WireView::Text(p.domainname)),
            named("customernumber"@, WireView::Int(p.customernumber)),
            named("apikey"@, WireView::Text(p.apikey)),
            named("apisessionid"@, WireView::Text(p.apisessionid)),
            named("clientrequestid"@, optional_text_wire(p.clientrequestid)),
            named("dnsrecordset"@, record_set_wire(p.dnsrecordset)),
        ],
    )
}

/// The envelope that every request travels in: the action's name and its
/// parameter.
pub open spec fn frame_wire(action: Seq<char>, param: WireView) -> WireView {
    WireView::Object(seq![named("action"@, WireView::Text(action)), named("param"@, param)])
}

/// The document of the session that a login response carries.
pub open spec fn session_wire(data: LoginResponseDataView) -> WireView {
    WireView::Object(seq![named("apisessionid"@, WireView::Text(data.apisessionid))])
}

/// The document of the records that a response carries.
pub open spec fn records_data_wire(data: DnsRecordsResponseDataView) -> WireView {
    WireView::Object(seq![named("dnsrecords"@, records_wire(data.dnsrecords))])
}

/// The document of a response, as the server lays it out: the common fields
/// and, last, what the action answers with.
pub open spec fn response_wire(envelope: ResponseEnvelopeView, data: WireView) -> WireView {
    WireView::Object(
        seq![
            named("serverrequestid"@, WireView::Text(envelope.serverrequestid)),
            named("clientrequestid"@, optional_text_wire(envelope.clientrequestid)),
            named("action"@, WireView::Text(envelope.action)),
            named("status"@, WireView::Text(envelope.status)),
            named("statuscode"@, WireView::Int(envelope.statuscode)),
            named("shortmessage"@, WireView::Text(envelope.shortmessage)),
            named("longmessage"@, optional_text_wire(envelope.longmessage)),
            named("responsedata"@, data),
        ],
    )
}

/// The document of an optional text.
pub fn optional_text(text: &Option<String>) -> (w: Wire)
    ensures
        w@ == optional_text_wire(text_view(*text)),
{
    match text {
        Some(s) => Wire::text(s),
        None => Wire::Null,
    }
}

/// The document of an optional flag.
pub fn optional_flag(flag: Option<bool>) -> (w: Wire)
    ensures
        w@ == optional_flag_wire(flag),
{
    match flag {
        Some(b) => Wire::Bool(b),
        None => Wire::Null,
    }
}

/// Wraps a parameter document into the request envelope.
pub fn encode(action: &String, param: Wire) -> (w: Wire)
    ensures
        w@ == frame_wire(action@, param@),
{
    let members = vec![Member::new("action", Wire::text(action)), Member::new("param", param)];
    assert(members_view(members@) =~= seq![
        named("action"@, WireView::Text(action@)),
        named("param"@, param@),
    ]);
    Wire::object(members)
}

impl RecordType {
    /// The name under which the API knows this record type.
    pub fn name(&self) -> (name: &'static str)
        ensures
            name@ == record_type_name(*self),
    {
        match self {
            RecordType::A => "A",
            RecordType::AAAA => "AAAA",
            RecordType::MX => "MX",
            RecordType::TXT => "TXT",
            RecordType::CNAME => "CNAME",
            RecordType::SRV => "SRV",
            RecordType::NS => "NS",
            RecordType::DS => "DS",
            RecordType::TLSA => "TLSA",
            RecordType::CAA => "CAA",
            RecordType::SSHFP => "SSHFP",
            RecordType::SMIMEA => "SMIMEA",
            RecordType::OPENPGPKEY => "OPENPGPKEY",
        }
    }
}

impl Credentials {
    /// The document of these credentials.
    pub fn to_wire(&self) -> (w: Wire)
        ensures
            w@ == credentials_wire(self@),
    {
        let members = vec![
            Member::new("customernumber", Wire::number(self.customernumber)),
            Member::new("apikey", Wire::text(&self.apikey)),
            Member::new("apipassword", Wire::text(&self.apipassword)),
        ];
        assert(members_view(members@) =~= credentials_wire(self@)->Object_0);
        Wire::object(members)
    }
}

impl DnsRecord {
    /// The document of this record.
    pub fn to_wire(&self) -> (w: Wire)
        ensures
            w@ == record_wire(self@),
    {
        let kind = self.dns_type.name().to_owned();
        let members = vec![
            Member::new("id", optional_text(&self.id)),
            Member::new("hostname", Wire::text(&self.hostname)),
            Member::new("type", Wire::Text(kind)),
            Member::new("priority", optional_text(&self.priority)),
            Member::new("destination", Wire::text(&self.destination)),
            Member::new("deleterecord", optional_flag(self.deleterecord)),
            Member::new("state", optional_text(&self.state)),
        ];
        assert(members_view(members@) =~= record_wire(self@)->Object_0);
        Wire::object(members)
    }
}

/// The document of a run of records: the list of their documents, in order.
pub fn records_to_wire(records: &Vec<DnsRecord>) -> (w: Wire)
    ensures
        w@ == records_wire(records_view(records@)),
{
    let mut items: Vec<Wire> = Vec::new();
    let mut i: usize = 0;
    while i < records.len()
        invariant
            0 <= i <= records.len(),
            items@.len() == i,
            forall|k: int| 0 <= k < i ==> (#[trigger] items@[k])@ == record_wire(records@[k]@),
        decreases records.len() - i,
    {
        items.push(records[i].to_wire());
        i += 1;
    }
    assert(wires_view(items@) =~= records_wire(records_view(records@))->List_0);
    Wire::list(items)
}

impl DnsRecordSet {
    /// The document of this record set.
    pub fn to_wire(&self) -> (w: Wire)
        ensures
            w@ == record_set_wire(self@),
    {
        let members = vec![Member::new("dnsrecords", records_to_wire(&self.dnsrecords))];
        assert(members_view(members@) =~= record_set_wire(self@)->Object_0);
        Wire::object(members)
    }
}

impl LogoutRequest {
    /// The document of this parameter.
    pub fn to_wire(&self) -> (w: Wire)
        ensures
            w@ == logout_wire(self@),
    {
        let members = vec![
            Member::new("customernumber", Wire::number(self.customernumber)),
            Member::new("apikey", Wire::text(&self.apikey)),
            Member::new("apisessionid", Wire::text(&self.apisessionid)),
            Member::new("clientrequestid", optional_text(&self.clientrequestid)),
        ];
        assert(members_view(members@) =~= logout_wire(self@)->Object_0);
        Wire::object(members)
    }
}

impl InfoDomainRequest {
    /// The document of this parameter.
    pub fn to_wire(&self) -> (w: Wire)
        ensures
            w@ == info_domain_wire(self@),
    {
        let members = vec![
            Member::new("domainname", Wire::text(&self.domainname)),
            Member::new("customernumber", Wire::number(self.customernumber)),
            Member::new("apikey", Wire::text(&self.apikey)),
            Member::new("apisessionid", Wire::text(&self.apisessionid)),
            Member::new("clientrequestid", optional_text(&self.clientrequestid)),
            Member::new("registryinformationflag", optional_flag(self.registryinformationflag)),
        ];
        assert(members_view(members@) =~= info_domain_wire(self@)->Object_0);
        Wire::object(members)
    }
}

impl InfoDnsRecordsRequest {
    /// The document of this parameter.
    pub fn to_wire(&self) -> (w: Wire)
        ensures
            w@ == info_dns_records_wire(self@),
    {
        let members = vec![
            Member::new("domainname", Wire::text(&self.domainname)),
            Member::new("customernumber", Wire::number(self.customernumber)),
            Member::new("apikey", Wire::text(&self.apikey)),
            Member::new("apisessionid", Wire::text(&self.apisessionid)),
            Member::new("clientrequestid", optional_text(&self.clientrequestid)),
        ];
        assert(members_view(members@) =~= info_dns_records_wire(self@)->Object_0);
        Wire::object(members)
    }
}

impl UpdateDnsRecordsRequest {
    /// The document of this parameter.
    pub fn to_wire(&self) -> (w: Wire)
        ensures
            w@ == update_wire(self@),
    {
        let members = vec![
            Member::new("domainname", Wire::text(&self.domainname)),
            Member::new("customernumber", Wire::number(self.customernumber)),
            Member::new("apikey", Wire::text(&self.apikey)),
            Member::new("apisessionid", Wire::text(&self.apisessionid)),
            Member::new("clientrequestid", optional_text(&self.clientrequestid)),
            Member::new("dnsrecordset", self.dnsrecordset.to_wire()),
        ];
        assert(members_view(members@) =~= update_wire(self@)->Object_0);
        Wire::object(members)
    }
}

impl LoginRequestFrame {
    /// The document that is posted for this request.
    pub fn encode(&self) -> (w: Wire)
        ensures
            w@ == frame_wire(self.action@, credentials_wire(self.param@)),
    {
        encode(&self.action, self.param.to_wire())
    }
}

impl LogoutRequestFrame {
    /// The document that is posted for this request.
    pub fn encode(&self) -> (w: Wire)
        ensures
            w@ == frame_wire(self.action@, logout_wire(self.param@)),
    {
        encode(&self.action, self.param.to_wire())
    }
}

impl InfoDomainRequestFrame {
    /// The document that is posted for this request.
    pub fn encode(&self) -> (w: Wire)
        ensures
            w@ == frame_wire(self.action@, info_domain_wire(self.param@)),
    {
        encode(&self.action, self.param.to_wire())
    }
}

impl InfoDnsRecordsFrame {
    /// The document that is posted for this request.
    pub fn encode(&self) -> (w: Wire)
        ensures
            w@ == frame_wire(self.action@, info_dns_records_wire(self.param@)),
    {
        encode(&self.action, self.param.to_wire())
    }
}

impl UpdateDnsRecordsRequestFrame {
    /// The document that is posted for this request.
    pub fn encode(&self) -> (w: Wire)
        ensures
            w@ == frame_wire(self.action@, update_wire(self.param@)),
    {
        encode(&self.action, self.param.to_wire())
    }
}

} // verus!
