//! The actions of the API, one request and one outcome each.
//!
//! Every action goes the same way. A function named after the action builds
//! the request frame from the session, the domain and the credentials; the
//! caller posts the frame's document and hands the reply to the action's
//! `..._outcome` function, which says what the call came to.

use vstd::prelude::*;
use crate::api_objects::{
    records_view, text_view, DnsRecord, DnsRecordSet, DnsRecordSetView, DnsRecordView,
    InfoDnsRecordsFrame, InfoDnsRecordsFrameView, InfoDnsRecordsRequest,
    InfoDnsRecordsRequestView, InfoDnsRecordsResponse, InfoDnsRecordsResponseView,
    InfoDomainRequest, InfoDomainRequestFrame, InfoDomainRequestFrameView, InfoDomainRequestView,
    InfoDomainResponse, InfoDomainResponseView, LoginRequestFrame, LoginRequestFrameView,
    LoginResponse, LoginResponseView, LogoutRequest, LogoutRequestFrame, LogoutRequestFrameView,
    LogoutRequestView, ResponseEnvelope, UpdateDnsRecordsRequest, UpdateDnsRecordsRequestFrame,
    UpdateDnsRecordsRequestFrameView, UpdateDnsRecordsRequestView, UpdateDnsRecordsResponse,
    UpdateDnsRecordsResponseView,
};
use crate::configuration::{Credentials, CredentialsView};
use crate::decode::{
    envelope_of, info_dns_records_response_of, info_domain_response_of, login_response_of,
    update_response_of,
};
use crate::wire::{Wire, WireView};

verus! {

/// The one address that every request is posted to.
pub const API_URL: &'static str = "https://ccp.netcup.net/run/webservice/servers/endpoint.php?JSON";

/// The status code of a call that succeeded. Every other code is a failure
/// that the server names by it.
pub const SUCCESS_STATUS_CODE: i32 = 2000;

pub const LOGIN_ACTION: &'static str = "login";

pub const LOGOUT_ACTION: &'static str = "logout";

pub const INFO_DOMAIN_ACTION: &'static str = "infoDomain";

pub const UPDATE_DNS_RECORDS_ACTION: &'static str = "updateDnsRecords";

pub const INFO_DNS_RECORDS_ACTION: &'static str = "infoDnsRecords";

/// What came back for one posted request.
#[derive(Debug, PartialEq, Eq)]
pub enum Reply {
    /// The server answered with this document.
    Body(Wire),
    /// The server answered, but not with a document.
    Unreadable,
    /// No answer arrived, or one that reports an HTTP failure.
    Failed,
}

/// The mathematical value of a [`Reply`].
pub enum ReplyView {
    Body(WireView),
    Unreadable,
    Failed,
}

impl View for Reply {
    type V = ReplyView;

    open spec fn view(&self) -> ReplyView {
        match self {
            Reply::Body(doc) => ReplyView::Body(doc@),
            Reply::Unreadable => ReplyView::Unreadable,
            Reply::Failed => ReplyView::Failed,
        }
    }
}

/// Why a call did not succeed.
#[derive(Debug, PartialEq, Eq)]
pub enum ApiError {
    /// The request did not get through.
    TransportError,
    /// The reply does not have the shape that the action's response has.
    DecodeError,
    /// The server refused, with this code and these messages.
    ApiFailure { statuscode: i32, shortmessage: String, longmessage: Option<String> },
    /// The action needs a session and there is none.
    SessionUnavailable,
}

/// The mathematical value of an [`ApiError`].
pub enum ApiErrorView {
    TransportError,
    DecodeError,
    ApiFailure { statuscode: int, shortmessage: Seq<char>, longmessage: Option<Seq<char>> },
    SessionUnavailable,
}

impl View for ApiError {
    type V = ApiErrorView;

    open spec fn view(&self) -> ApiErrorView {
        match self {
            ApiError::TransportError => ApiErrorView::TransportError,
            ApiError::DecodeError => ApiErrorView::DecodeError,
            ApiError::ApiFailure { statuscode, shortmessage, longmessage } => ApiErrorView::ApiFailure {
                statuscode: *statuscode as int,
                shortmessage: shortmessage@,
                longmessage: text_view(*longmessage),
            },
            ApiError::SessionUnavailable => ApiErrorView::SessionUnavailable,
        }
    }
}

impl ApiError {
    /// The server's status code, where the error is the server's refusal.
    pub fn code(&self) -> (code: Option<i32>)
        ensures
            code == match self {
                ApiError::ApiFailure { statuscode, .. } => Some(*statuscode),
                _ => None::<i32>,
            },
    {
        match self {
            ApiError::ApiFailure { statuscode, .. } => Some(*statuscode),
            _ => None,
        }
    }
}

/// Whether an outcome has the given value.
pub open spec fn outcome_is<T: View>(got: Result<T, ApiError>, want: Result<T::V, ApiErrorView>) -> bool {
    match got {
        Ok(value) => want == Ok::<T::V, ApiErrorView>(value@),
        Err(error) => want == Err::<T::V, ApiErrorView>(error@),
    }
}

/// The document of a reply that is to be read as a response: a reply that
/// arrived, holds a document with the common fields, and reports success.
/// Any other reply is the error it stands for, the server's refusal with its
/// code and messages as the server gave them.
pub open spec fn accepted(reply: ReplyView) -> Result<WireView, ApiErrorView> {
    match reply {
        ReplyView::Failed => Err(ApiErrorView::TransportError),
        ReplyView::Unreadable => Err(ApiErrorView::DecodeError),
        ReplyView::Body(doc) => match envelope_of(doc) {
            None => Err(ApiErrorView::DecodeError),
            Some(e) => if e.statuscode == SUCCESS_STATUS_CODE {
                Ok(doc)
            } else {
                Err(
                    ApiErrorView::ApiFailure {
                        statuscode: e.statuscode,
                        shortmessage: e.shortmessage,
                        longmessage: e.longmessage,
                    },
                )
            },
        },
    }
}

/// What a response of an accepted reply comes to: the response, or a decode
/// failure where the document does not hold one.
pub open spec fn decoded<V>(reply: ReplyView, response: Option<V>) -> Result<V, ApiErrorView> {
    match accepted(reply) {
        Err(error) => Err(error),
        Ok(_) => match response {
            Some(r) => Ok(r),
            None => Err(ApiErrorView::DecodeError),
        },
    }
}

/// The document that a reply holds, if it holds one.
pub open spec fn body(reply: ReplyView) -> WireView {
    match reply {
        ReplyView::Body(doc) => doc,
        _ => WireView::Null,
    }
}

/// What a login comes to, given the reply to it.
pub open spec fn login_result(reply: ReplyView) -> Result<LoginResponseView, ApiErrorView> {
    decoded(reply, login_response_of(body(reply)))
}

/// What a domain-information call comes to, given the reply to it.
pub open spec fn domain_info_result(reply: ReplyView) -> Result<InfoDomainResponseView, ApiErrorView> {
    decoded(reply, info_domain_response_of(body(reply)))
}

/// What a call for a domain's records comes to, given the reply to it.
pub open spec fn dns_records_result(reply: ReplyView) -> Result<
    InfoDnsRecordsResponseView,
    ApiErrorView,
> {
    decoded(reply, info_dns_records_response_of(body(reply)))
}

/// What an update comes to, given the reply to it.
pub open spec fn update_result(reply: ReplyView) -> Result<UpdateDnsRecordsResponseView, ApiErrorView> {
    decoded(reply, update_response_of(body(reply)))
}

/// The login request for the given credentials.
pub open spec fn login_frame(credentials: CredentialsView) -> LoginRequestFrameView {
    LoginRequestFrameView { action: LOGIN_ACTION@, param: credentials }
}

/// The logout request that ends the given session.
pub open spec fn logout_frame(
    credentials: CredentialsView,
    session_id: Seq<char>,
) -> LogoutRequestFrameView {
    LogoutRequestFrameView {
        action: LOGOUT_ACTION@,
        param: LogoutRequestView {
            customernumber: credentials.customernumber,
            apikey: credentials.apikey,
            apisessionid: session_id,
            clientrequestid: None,
        },
    }
}

/// The domain-information request for the given domain.
pub open spec fn info_domain_frame(
    session_id: Seq<char>,
    domain: Seq<char>,
    credentials: CredentialsView,
) -> InfoDomainRequestFrameView {
    InfoDomainRequestFrameView {
        action: INFO_DOMAIN_ACTION@,
        param: InfoDomainRequestView {
            domainname: domain,
            customernumber: credentials.customernumber,
            apikey: credentials.apikey,
            apisessionid: session_id,
            clientrequestid: None,
            registryinformationflag: None,
        },
    }
}

/// The request for the records of the given domain.
pub open spec fn info_dns_records_frame(
    session_id: Seq<char>,
    domain: Seq<char>,
    credentials: CredentialsView,
) -> InfoDnsRecordsFrameView {
    InfoDnsRecordsFrameView {
        action: INFO_DNS_RECORDS_ACTION@,
        param: InfoDnsRecordsRequestView {
            domainname: domain,
            customernumber: credentials.customernumber,
            apikey: credentials.apikey,
            apisessionid: session_id,
            clientrequestid: None,
        },
    }
}

/// The request that gives the given domain exactly the given records.
pub open spec fn update_frame(
    session_id: Seq<char>,
    domain: Seq<char>,
    credentials: CredentialsView,
    records: Seq<DnsRecordView>,
) -> UpdateDnsRecordsRequestFrameView {
    UpdateDnsRecordsRequestFrameView {
        action: UPDATE_DNS_RECORDS_ACTION@,
        param: UpdateDnsRecordsRequestView {
            domainname: domain,
            customernumber: credentials.customernumber,
            apikey: credentials.apikey,
            apisessionid: session_id,
            clientrequestid: None,
            dnsrecordset: DnsRecordSetView { dnsrecords: records },
        },
    }
}

/// The records of a keyed run without their keys, in the same order.
pub open spec fn values_view(entries: Seq<(String, DnsRecord)>) -> Seq<DnsRecordView> {
    Seq::new(entries.len(), |i: int| entries[i].1@)
}

/// Says whether a reply is to be read as a response, and which error it is
/// where it is not.
pub fn accept(reply: &Reply) -> (verdict: Result<&Wire, ApiError>)
    ensures
        match verdict {
            Ok(doc) => accepted(reply@) == Ok::<WireView, ApiErrorView>(doc@) && reply@
                == ReplyView::Body(doc@),
            Err(error) => accepted(reply@) == Err::<WireView, ApiErrorView>(error@),
        },
{
    match reply {
        Reply::Failed => Err(ApiError::TransportError),
        Reply::Unreadable => Err(ApiError::DecodeError),
        Reply::Body(doc) => match ResponseEnvelope::decode(doc) {
            None => Err(ApiError::DecodeError),
            Some(e) => {
                if e.statuscode == SUCCESS_STATUS_CODE {
                    Ok(doc)
                } else {
                    Err(
                        ApiError::ApiFailure {
                            statuscode: e.statuscode,
                            shortmessage: e.shortmessage,
                            longmessage: e.longmessage,
                        },
                    )
                }
            },
        },
    }
}

/// Builds the login request.
pub fn create_login_session(api_login: &Credentials) -> (frame: LoginRequestFrame)
    ensures
        frame@ == login_frame(api_login@),
{
    LoginRequestFrame { action: LOGIN_ACTION.to_owned(), param: api_login.clone() }
}

/// Says what a login came to: the response with the session on a reply that
/// reports success and holds one, otherwise the error.
pub fn login_outcome(reply: &Reply) -> (outcome: Result<LoginResponse, ApiError>)
    ensures
        outcome_is(outcome, login_result(reply@)),
{
    match accept(reply) {
        Err(error) => Err(error),
        Ok(doc) => match LoginResponse::decode(doc) {
            Some(response) => Ok(response),
            None => Err(ApiError::DecodeError),
        },
    }
}

/// Builds the logout request for a session. The reply to it decides nothing:
/// a session that could not be ended runs out on the server.
pub fn destroy_login_session(api_login: &Credentials, session_id: String) -> (frame:
    LogoutRequestFrame)
    ensures
        frame@ == logout_frame(api_login@, session_id@),
{
    LogoutRequestFrame {
        action: LOGOUT_ACTION.to_owned(),
        param: LogoutRequest {
            customernumber: api_login.customernumber,
            apikey: api_login.apikey.clone(),
            apisessionid: session_id,
            clientrequestid: None,
        },
    }
}

/// Builds the request for a domain's registration data. The server answers
/// it for resellers only.
pub fn get_domain_info(session_id: String, domain: String, credentials: &Credentials) -> (frame:
    InfoDomainRequestFrame)
    ensures
        frame@ == info_domain_frame(session_id@, domain@, credentials@),
{
    InfoDomainRequestFrame {
        action: INFO_DOMAIN_ACTION.to_owned(),
        param: InfoDomainRequest {
            domainname: domain,
            customernumber: credentials.customernumber,
            apikey: credentials.apikey.clone(),
            apisessionid: session_id,
            clientrequestid: None,
            registryinformationflag: None,
        },
    }
}

/// Says what a domain-information call came to.
pub fn domain_info_outcome(reply: &Reply) -> (outcome: Result<InfoDomainResponse, ApiError>)
    ensures
        outcome_is(outcome, domain_info_result(reply@)),
{
    match accept(reply) {
        Err(error) => Err(error),
        Ok(doc) => match InfoDomainResponse::decode(doc) {
            Some(response) => Ok(response),
            None => Err(ApiError::DecodeError),
        },
    }
}

/// Builds the request for a domain's records.
pub fn info_dns_records(session_id: String, domain: String, credentials: &Credentials) -> (frame:
    InfoDnsRecordsFrame)
    ensures
        frame@ == info_dns_records_frame(session_id@, domain@, credentials@),
{
    InfoDnsRecordsFrame {
        action: INFO_DNS_RECORDS_ACTION.to_owned(),
        param: InfoDnsRecordsRequest {
            domainname: domain,
            customernumber: credentials.customernumber,
            apikey: credentials.apikey.clone(),
            apisessionid: session_id,
            clientrequestid: None,
        },
    }
}

/// Says what a call for a domain's records came to. On success the response
/// holds the records.
pub fn dns_records_outcome(reply: &Reply) -> (outcome: Result<InfoDnsRecordsResponse, ApiError>)
    ensures
        outcome_is(outcome, dns_records_result(reply@)),
{
    match accept(reply) {
        Err(error) => Err(error),
        Ok(doc) => match InfoDnsRecordsResponse::decode(doc) {
            Some(response) => Ok(response),
            None => Err(ApiError::DecodeError),
        },
    }
}

/// Builds the request that replaces a domain's records. `dns_records` is the
/// whole set the domain is to have: the server keeps none that is not in it.
/// Every record goes into the request, in the order given, without its key.
pub fn update_dns_records(
    session_id: String,
    domain: String,
    credentials: &Credentials,
    dns_records: Vec<(String, DnsRecord)>,
) -> (frame: UpdateDnsRecordsRequestFrame)
    ensures
        frame@ == update_frame(session_id@, domain@, credentials@, values_view(dns_records@)),
{
    let ghost entries = dns_records@;
    let mut vec_dns_records: Vec<DnsRecord> = Vec::new();
    for entry in it: dns_records
        invariant
            it.seq() == entries,
            vec_dns_records@.len() == it.index(),
            forall|k: int|
                0 <= k < it.index() ==> (#[trigger] vec_dns_records@[k]) == entries[k].1,
    {
        vec_dns_records.push(entry.1);
    }
    assert(records_view(vec_dns_records@) =~= values_view(entries));
    UpdateDnsRecordsRequestFrame {
        action: UPDATE_DNS_RECORDS_ACTION.to_owned(),
        param: UpdateDnsRecordsRequest {
            domainname: domain,
            customernumber: credentials.customernumber,
            apikey: credentials.apikey.clone(),
            apisessionid: session_id,
            clientrequestid: None,
            dnsrecordset: DnsRecordSet { dnsrecords: vec_dns_records },
        },
    }
}

/// Says what an update came to. On success the response holds the records as
/// the server now has them.
pub fn update_outcome(reply: &Reply) -> (outcome: Result<UpdateDnsRecordsResponse, ApiError>)
    ensures
        outcome_is(outcome, update_result(reply@)),
{
    match accept(reply) {
        Err(error) => Err(error),
        Ok(doc) => match UpdateDnsRecordsResponse::decode(doc) {
            Some(response) => Ok(response),
            None => Err(ApiError::DecodeError),
        },
    }
}

/// Changes to a zone's settings are not offered.
pub fn update_dns_zone() {
}

/// Changes to a domain's registration are not offered.
pub fn update_domain() {
}

/// Changes to a contact handle are not offered.
pub fn update_handle() {
}

} // verus!
