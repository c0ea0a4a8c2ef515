//! The values that travel between this client and the API: one request
//! frame and one response per action, and the records they carry.

use vstd::prelude::*;
use crate::configuration::{Credentials, CredentialsView};

verus! {

/// The value of an optional text.
pub open spec fn text_view(text: Option<String>) -> Option<Seq<char>> {
    match text {
        Some(s) => Some(s@),
        None => None,
    }
}

/// A copy of an optional text.
pub fn text_clone(text: &Option<String>) -> (copy: Option<String>)
    ensures
        copy == *text,
{
    match text {
        Some(s) => Some(s.clone()),
        None => None,
    }
}

/// The kinds of DNS record that the registry knows.
#[derive(Clone, Copy, Debug, PartialEq, Eq, Structural)]
#[allow(nonstandard_style)]
pub enum RecordType {
    A,
    AAAA,
    MX,
    TXT,
    CNAME,
    SRV,
    NS,
    DS,
    TLSA,
    CAA,
    SSHFP,
    SMIMEA,
    OPENPGPKEY,
}

/// One DNS record as declared or as the server reports it. `id` is absent on
/// a record the server has not seen yet; `deleterecord` marks a record for
/// removal; `state` is the server's own note and means nothing in a request.
#[derive(Debug, PartialEq, Eq)]
pub struct DnsRecord {
    pub id: Option<String>,
    pub hostname: String,
    pub dns_type: RecordType,
    pub priority: Option<String>,
    pub destination: String,
    pub deleterecord: Option<bool>,
    pub state: Option<String>,
}

/// The mathematical value of a [`DnsRecord`].
pub struct DnsRecordView {
    pub id: Option<Seq<char>>,
    pub hostname: Seq<char>,
    pub dns_type: RecordType,
    pub priority: Option<Seq<char>>,
    pub destination: Seq<char>,
    pub deleterecord: Option<bool>,
    pub state: Option<Seq<char>>,
}

impl View for DnsRecord {
    type V = DnsRecordView;

    open spec fn view(&self) -> DnsRecordView {
        DnsRecordView {
            id: text_view(self.id),
            hostname: self.hostname@,
            dns_type: self.dns_type,
            priority: text_view(self.priority),
            destination: self.destination@,
            deleterecord: self.deleterecord,
            state: text_view(self.state),
        }
    }
}

impl Clone for DnsRecord {
    fn clone(&self) -> (copy: DnsRecord)
        ensures
            copy == *self,
    {
        DnsRecord {
            id: text_clone(&self.id),
            hostname: self.hostname.clone(),
            dns_type: self.dns_type,
            priority: text_clone(&self.priority),
            destination: self.destination.clone(),
            deleterecord: self.deleterecord,
            state: text_clone(&self.state),
        }
    }
}

/// The values of a run of records, one for one.
pub open spec fn records_view(records: Seq<DnsRecord>) -> Seq<DnsRecordView> {
    Seq::new(records.len(), |i: int| records[i]@)
}

/// A copy of a run of keyed records, in the same order.
pub fn records_clone(entries: &Vec<(String, DnsRecord)>) -> (copy: Vec<(String, DnsRecord)>)
    ensures
        copy@ == entries@,
{
    let mut copy: Vec<(String, DnsRecord)> = Vec::new();
    let mut i: usize = 0;
    while i < entries.len()
        invariant
            0 <= i <= entries.len(),
            copy@ == entries@.take(i as int),
        decreases entries.len() - i,
    {
        copy.push((entries[i].0.clone(), entries[i].1.clone()));
        assert(copy@ =~= entries@.take(i + 1));
        i += 1;
    }
    assert(entries@.take(entries.len() as int) =~= entries@);
    copy
}

/// The record set of an update request.
#[derive(Debug, PartialEq, Eq)]
pub struct DnsRecordSet {
    pub dnsrecords: Vec<DnsRecord>,
}

/// The mathematical value of a [`DnsRecordSet`].
pub struct DnsRecordSetView {
    pub dnsrecords: Seq<DnsRecordView>,
}

impl View for DnsRecordSet {
    type V = DnsRecordSetView;

    open spec fn view(&self) -> DnsRecordSetView {
        DnsRecordSetView { dnsrecords: records_view(self.dnsrecords@) }
    }
}

/// The records that a response carries.
#[derive(Debug, PartialEq, Eq)]
pub struct DnsRecordsResponseData {
    pub dnsrecords: Vec<DnsRecord>,
}

/// The mathematical value of a [`DnsRecordsResponseData`].
pub struct DnsRecordsResponseDataView {
    pub dnsrecords: Seq<DnsRecordView>,
}

impl View for DnsRecordsResponseData {
    type V = DnsRecordsResponseDataView;

    open spec fn view(&self) -> DnsRecordsResponseDataView {
        DnsRecordsResponseDataView { dnsrecords: records_view(self.dnsrecords@) }
    }
}

/// The value of optional response records.
pub open spec fn response_data_view(data: Option<DnsRecordsResponseData>) -> Option<
    DnsRecordsResponseDataView,
> {
    match data {
        Some(d) => Some(d@),
        None => None,
    }
}

// ------------------------------------------------------------- envelope

/// What every response has in common, whatever the action: the fields around
/// `responsedata`. The server leaves `clientrequestid` and `longmessage`
/// empty at times, so both may be absent.
#[derive(Debug, PartialEq, Eq)]
pub struct ResponseEnvelope {
    pub serverrequestid: String,
    pub clientrequestid: Option<String>,
    pub action: String,
    pub status: String,
    pub statuscode: i32,
    pub shortmessage: String,
    pub longmessage: Option<String>,
}

/// The mathematical value of a [`ResponseEnvelope`].
pub struct ResponseEnvelopeView {
    pub serverrequestid: Seq<char>,
    pub clientrequestid: Option<Seq<char>>,
    pub action: Seq<char>,
    pub status: Seq<char>,
    pub statuscode: int,
    pub shortmessage: Seq<char>,
    pub longmessage: Option<Seq<char>>,
}

impl View for ResponseEnvelope {
    type V = ResponseEnvelopeView;

    open spec fn view(&self) -> ResponseEnvelopeView {
        ResponseEnvelopeView {
            serverrequestid: self.serverrequestid@,
            clientrequestid: text_view(self.clientrequestid),
            action: self.action@,
            status: self.status@,
            statuscode: self.statuscode as int,
            shortmessage: self.shortmessage@,
            longmessage: text_view(self.longmessage),
        }
    }
}

// ---------------------------------------------------------------- login

/// The login request: the action name and the credentials.
#[derive(Debug, PartialEq, Eq)]
pub struct LoginRequestFrame {
    pub action: String,
    pub param: Credentials,
}

/// The mathematical value of a [`LoginRequestFrame`].
pub struct LoginRequestFrameView {
    pub action: Seq<char>,
    pub param: CredentialsView,
}

impl View for LoginRequestFrame {
    type V = LoginRequestFrameView;

    open spec fn view(&self) -> LoginRequestFrameView {
        LoginRequestFrameView { action: self.action@, param: self.param@ }
    }
}

/// What a successful login hands out.
#[derive(Debug, PartialEq, Eq)]
pub struct LoginResponseData {
    pub apisessionid: String,
}

/// The mathematical value of a [`LoginResponseData`].
pub struct LoginResponseDataView {
    pub apisessionid: Seq<char>,
}

impl View for LoginResponseData {
    type V = LoginResponseDataView;

    open spec fn view(&self) -> LoginResponseDataView {
        LoginResponseDataView { apisessionid: self.apisessionid@ }
    }
}

/// The response to a login.
#[derive(Debug, PartialEq, Eq)]
pub struct LoginResponse {
    pub serverrequestid: String,
    pub clientrequestid: String,
    pub action: String,
    pub status: String,
    pub statuscode: i32,
    pub shortmessage: String,
    pub longmessage: String,
    pub responsedata: LoginResponseData,
}

/// The mathematical value of a [`LoginResponse`].
pub struct LoginResponseView {
    pub serverrequestid: Seq<char>,
    pub clientrequestid: Seq<char>,
    pub action: Seq<char>,
    pub status: Seq<char>,
    pub statuscode: int,
    pub shortmessage: Seq<char>,
    pub longmessage: Seq<char>,
    pub responsedata: LoginResponseDataView,
}

impl View for LoginResponse {
    type V = LoginResponseView;

    open spec fn view(&self) -> LoginResponseView {
        LoginResponseView {
            serverrequestid: self.serverrequestid@,
            clientrequestid: self.clientrequestid@,
            action: self.action@,
            status: self.status@,
            statuscode: self.statuscode as int,
            shortmessage: self.shortmessage@,
            longmessage: self.longmessage@,
            responsedata: self.responsedata@,
        }
    }
}

impl Default for LoginResponse {
    /// A placeholder response: status code 0 and the word `default` in every
    /// text, the session id included. It stands for no reply of the server.
    fn default() -> (response: LoginResponse)
        ensures
            response@ == (LoginResponseView {
                serverrequestid: "default"@,
                clientrequestid: "default"@,
                action: "default"@,
                status: "default"@,
                statuscode: 0,
                shortmessage: "default"@,
                longmessage: "default"@,
                responsedata: LoginResponseDataView { apisessionid: "default"@ },
            }),
    {
        LoginResponse {
            serverrequestid: "default".to_owned(),
            clientrequestid: "default".to_owned(),
            action: "default".to_owned(),
            status: "default".to_owned(),
            statuscode: 0,
            shortmessage: "default".to_owned(),
            longmessage: "default".to_owned(),
            responsedata: LoginResponseData { apisessionid: "default".to_owned() },
        }
    }
}

// --------------------------------------------------------------- logout

/// The parameter of a logout.
#[derive(Debug, PartialEq, Eq)]
pub struct LogoutRequest {
    pub customernumber: i32,
    pub apikey: String,
    pub apisessionid: String,
    pub clientrequestid: Option<String>,
}

/// The mathematical value of a [`LogoutRequest`].
pub struct LogoutRequestView {
    pub customernumber: int,
    pub apikey: Seq<char>,
    pub apisessionid: Seq<char>,
    pub clientrequestid: Option<Seq<char>>,
}

impl View for LogoutRequest {
    type V = LogoutRequestView;

    open spec fn view(&self) -> LogoutRequestView {
        LogoutRequestView {
            customernumber: self.customernumber as int,
            apikey: self.apikey@,
            apisessionid: self.apisessionid@,
            clientrequestid: text_view(self.clientrequestid),
        }
    }
}

/// The logout request.
#[derive(Debug, PartialEq, Eq)]
pub struct LogoutRequestFrame {
    pub action: String,
    pub param: LogoutRequest,
}

/// The mathematical value of a [`LogoutRequestFrame`].
pub struct LogoutRequestFrameView {
    pub action: Seq<char>,
    pub param: LogoutRequestView,
}

impl View for LogoutRequestFrame {
    type V = LogoutRequestFrameView;

    open spec fn view(&self) -> LogoutRequestFrameView {
        LogoutRequestFrameView { action: self.action@, param: self.param@ }
    }
}

// ----------------------------------------------------------- infoDomain

/// The domain-information request.
#[derive(Debug, PartialEq, Eq)]
pub struct InfoDomainRequestFrame {
    pub action: String,
    pub param: InfoDomainRequest,
}

/// The mathematical value of an [`InfoDomainRequestFrame`].
pub struct InfoDomainRequestFrameView {
    pub action: Seq<char>,
    pub param: InfoDomainRequestView,
}

impl View for InfoDomainRequestFrame {
    type V = InfoDomainRequestFrameView;

    open spec fn view(&self) -> InfoDomainRequestFrameView {
        InfoDomainRequestFrameView { action: self.action@, param: self.param@ }
    }
}

/// The parameter of a domain-information request.
#[derive(Debug, PartialEq, Eq)]
pub struct InfoDomainRequest {
    pub domainname: String,
    pub customernumber: i32,
    pub apikey: String,
    pub apisessionid: String,
    pub clientrequestid: Option<String>,
    pub registryinformationflag: Option<bool>,
}

/// The mathematical value of an [`InfoDomainRequest`].
pub struct InfoDomainRequestView {
    pub domainname: Seq<char>,
    pub customernumber: int,
    pub apikey: Seq<char>,
    pub apisessionid: Seq<char>,
    pub clientrequestid: Option<Seq<char>>,
    pub registryinformationflag: Option<bool>,
}

impl View for InfoDomainRequest {
    type V = InfoDomainRequestView;

    open spec fn view(&self) -> InfoDomainRequestView {
        InfoDomainRequestView {
            domainname: self.domainname@,
            customernumber: self.customernumber as int,
            apikey: self.apikey@,
            apisessionid: self.apisessionid@,
            clientrequestid: text_view(self.clientrequestid),
            registryinformationflag: self.registryinformationflag,
        }
    }
}

/// The response to a domain-information request.
#[derive(Debug, PartialEq, Eq)]
pub struct InfoDomainResponse {
    pub serverrequestid: String,
    pub clientrequestid: String,
    pub action: String,
    pub status: String,
    pub statuscode: i32,
    pub shortmessage: String,
    pub longmessage: String,
    pub responsedata: String,
}

/// The mathematical value of an [`InfoDomainResponse`].
pub struct InfoDomainResponseView {
    pub serverrequestid: Seq<char>,
    pub clientrequestid: Seq<char>,
    pub action: Seq<char>,
    pub status: Seq<char>,
    pub statuscode: int,
    pub shortmessage: Seq<char>,
    pub longmessage: Seq<char>,
    pub responsedata: Seq<char>,
}

impl View for InfoDomainResponse {
    type V = InfoDomainResponseView;

    open spec fn view(&self) -> InfoDomainResponseView {
        InfoDomainResponseView {
            serverrequestid: self.serverrequestid@,
            clientrequestid: self.clientrequestid@,
            action: self.action@,
            status: self.status@,
            statuscode: self.statuscode as int,
            shortmessage: self.shortmessage@,
            longmessage: self.longmessage@,
            responsedata: self.responsedata@,
        }
    }
}

// ------------------------------------------------------- infoDnsRecords

/// The request for a domain's records.
#[derive(Debug, PartialEq, Eq)]
pub struct InfoDnsRecordsFrame {
    pub action: String,
    pub param: InfoDnsRecordsRequest,
}

/// The mathematical value of an [`InfoDnsRecordsFrame`].
pub struct InfoDnsRecordsFrameView {
    pub action: Seq<char>,
    pub param: InfoDnsRecordsRequestView,
}

impl View for InfoDnsRecordsFrame {
    type V = InfoDnsRecordsFrameView;

    open spec fn view(&self) -> InfoDnsRecordsFrameView {
        InfoDnsRecordsFrameView { action: self.action@, param: self.param@ }
    }
}

/// The parameter of a request for a domain's records.
#[derive(Debug, PartialEq, Eq)]
pub struct InfoDnsRecordsRequest {
    pub domainname: String,
    pub customernumber: i32,
    pub apikey: String,
    pub apisessionid: String,
    pub clientrequestid: Option<String>,
}

/// The mathematical value of an [`InfoDnsRecordsRequest`].
pub struct InfoDnsRecordsRequestView {
    pub domainname: Seq<char>,
    pub customernumber: int,
    pub apikey: Seq<char>,
    pub apisessionid: Seq<char>,
    pub clientrequestid: Option<Seq<char>>,
}

impl View for InfoDnsRecordsRequest {
    type V = InfoDnsRecordsRequestView;

    open spec fn view(&self) -> InfoDnsRecordsRequestView {
        InfoDnsRecordsRequestView {
            domainname: self.domainname@,
            customernumber: self.customernumber as int,
            apikey: self.apikey@,
            apisessionid: self.apisessionid@,
            clientrequestid: text_view(self.clientrequestid),
        }
    }
}

/// The response to a request for a domain's records.
#[derive(Debug, PartialEq, Eq)]
pub struct InfoDnsRecordsResponse {
    pub serverrequestid: String,
    pub clientrequestid: String,
    pub action: String,
    pub status: String,
    pub statuscode: i32,
    pub shortmessage: String,
    pub longmessage: String,
    pub responsedata: Option<DnsRecordsResponseData>,
}

/// The mathematical value of an [`InfoDnsRecordsResponse`].
pub struct InfoDnsRecordsResponseView {
    pub serverrequestid: Seq<char>,
    pub clientrequestid: Seq<char>,
    pub action: Seq<char>,
    pub status: Seq<char>,
    pub statuscode: int,
    pub shortmessage: Seq<char>,
    pub longmessage: Seq<char>,
    pub responsedata: Option<DnsRecordsResponseDataView>,
}

impl View for InfoDnsRecordsResponse {
    type V = InfoDnsRecordsResponseView;

    open spec fn view(&self) -> InfoDnsRecordsResponseView {
        InfoDnsRecordsResponseView {
            serverrequestid: self.serverrequestid@,
            clientrequestid: self.clientrequestid@,
            action: self.action@,
            status: self.status@,
            statuscode: self.statuscode as int,
            shortmessage: self.shortmessage@,
            longmessage: self.longmessage@,
            responsedata: response_data_view(self.responsedata),
        }
    }
}

// ----------------------------------------------------- updateDnsRecords

/// The request that replaces a domain's records.
#[derive(Debug, PartialEq, Eq)]
pub struct UpdateDnsRecordsRequestFrame {
    pub action: String,
    pub param: UpdateDnsRecordsRequest,
}

/// The mathematical value of an [`UpdateDnsRecordsRequestFrame`].
pub struct UpdateDnsRecordsRequestFrameView {
    pub action: Seq<char>,
    pub param: UpdateDnsRecordsRequestView,
}

impl View for UpdateDnsRecordsRequestFrame {
    type V = UpdateDnsRecordsRequestFrameView;

    open spec fn view(&self) -> UpdateDnsRecordsRequestFrameView {
        UpdateDnsRecordsRequestFrameView { action: self.action@, param: self.param@ }
    }
}

/// The parameter of an update: the domain and the whole set of records it is
/// to have.
#[derive(Debug, PartialEq, Eq)]
pub struct UpdateDnsRecordsRequest {
    pub domainname: String,
    pub customernumber: i32,
    pub apikey: String,
    pub apisessionid: String,
    pub clientrequestid: Option<String>,
    pub dnsrecordset: DnsRecordSet,
}

/// The mathematical value of an [`UpdateDnsRecordsRequest`].
pub struct UpdateDnsRecordsRequestView {
    pub domainname: Seq<char>,
    pub customernumber: int,
    pub apikey: Seq<char>,
    pub apisessionid: Seq<char>,
    pub clientrequestid: Option<Seq<char>>,
    pub dnsrecordset: DnsRecordSetView,
}

impl View for UpdateDnsRecordsRequest {
    type V = UpdateDnsRecordsRequestView;

    open spec fn view(&self) -> UpdateDnsRecordsRequestView {
        UpdateDnsRecordsRequestView {
            domainname: self.domainname@,
            customernumber: self.customernumber as int,
            apikey: self.apikey@,
            apisessionid: self.apisessionid@,
            clientrequestid: text_view(self.clientrequestid),
            dnsrecordset: self.dnsrecordset@,
        }
    }
}

/// The response to an update. The server leaves `clientrequestid` and
/// `longmessage` empty at times, so both may be absent.
#[derive(Debug, PartialEq, Eq)]
pub struct UpdateDnsRecordsResponse {
    pub serverrequestid: String,
    pub clientrequestid: Option<String>,
    pub action: String,
    pub status: String,
    pub statuscode: i32,
    pub shortmessage: String,
    pub longmessage: Option<String>,
    pub responsedata: Option<DnsRecordsResponseData>,
}

/// The mathematical value of an [`UpdateDnsRecordsResponse`].
pub struct UpdateDnsRecordsResponseView {
    pub serverrequestid: Seq<char>,
    pub clientrequestid: Option<Seq<char>>,
    pub action: Seq<char>,
    pub status: Seq<char>,
    pub statuscode: int,
    pub shortmessage: Seq<char>,
    pub longmessage: Option<Seq<char>>,
    pub responsedata: Option<DnsRecordsResponseDataView>,
}

impl View for UpdateDnsRecordsResponse {
    type V = UpdateDnsRecordsResponseView;

    open spec fn view(&self) -> UpdateDnsRecordsResponseView {
        UpdateDnsRecordsResponseView {
            serverrequestid: self.serverrequestid@,
            clientrequestid: text_view(self.clientrequestid),
            action: self.action@,
            status: self.status@,
            statuscode: self.statuscode as int,
            shortmessage: self.shortmessage@,
            longmessage: text_view(self.longmessage),
            responsedata: response_data_view(self.responsedata),
        }
    }
}

// ----------------------------------------------------------------- zone

/// The settings of a DNS zone.
#[derive(Debug, PartialEq, Eq)]
pub struct DnsZone {
    pub domain: String,
    pub ttl: u32,
    pub serial: u32,
    pub refresh: u32,
    pub retry: u32,
    pub expire: u32,
    pub enable_dnsssec: bool,
}

} // verus!
