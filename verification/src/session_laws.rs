//! What holds of every reply to a call, and of the login above all.

use vstd::prelude::*;
use crate::api_calls::{
    accepted, dns_records_result, domain_info_result, login_result, update_result, ApiErrorView,
    ReplyView,
};
use crate::api_objects::{
    DnsRecordsResponseDataView, InfoDnsRecordsResponseView, InfoDomainResponseView,
    LoginResponseDataView, LoginResponseView, ResponseEnvelopeView, UpdateDnsRecordsResponseView,
};
use crate::codec::{records_data_wire, response_wire, session_wire};
use crate::decode::envelope_of;
use crate::round_trip::{
    lemma_records_data_round_trip, lemma_response_round_trip, lemma_session_round_trip,
};
use crate::wire::WireView;

verus! {

/// The error that stands for the server's refusal in the given response.
pub open spec fn refusal(envelope: ResponseEnvelopeView) -> ApiErrorView {
    ApiErrorView::ApiFailure {
        statuscode: envelope.statuscode,
        shortmessage: envelope.shortmessage,
        longmessage: envelope.longmessage,
    }
}

/// A response that reports another code than that of success fails the
/// call, whatever the action, and the failure carries that very code and the
/// server's messages. What the response holds besides does not matter.
pub proof fn lemma_refusal_carries_the_code(doc: WireView)
    requires
        envelope_of(doc) is Some,
        envelope_of(doc)->0.statuscode != 2000,
    ensures
        accepted(ReplyView::Body(doc)) == Err::<WireView, ApiErrorView>(
            refusal(envelope_of(doc)->0),
        ),
        login_result(ReplyView::Body(doc)) == Err::<LoginResponseView, ApiErrorView>(
            refusal(envelope_of(doc)->0),
        ),
        domain_info_result(ReplyView::Body(doc)) == Err::<InfoDomainResponseView, ApiErrorView>(
            refusal(envelope_of(doc)->0),
        ),
        dns_records_result(ReplyView::Body(doc)) == Err::<
            InfoDnsRecordsResponseView,
            ApiErrorView,
        >(refusal(envelope_of(doc)->0)),
        update_result(ReplyView::Body(doc)) == Err::<UpdateDnsRecordsResponseView, ApiErrorView>(
            refusal(envelope_of(doc)->0),
        ),
{
}

/// A call succeeds on no reply but one that holds a document which reports
/// the code of success.
pub proof fn lemma_success_needs_the_code(reply: ReplyView)
    requires
        accepted(reply) is Ok,
    ensures
        reply is Body,
        envelope_of(reply->Body_0) is Some,
        envelope_of(reply->Body_0)->0.statuscode == 2000,
        accepted(reply) == Ok::<WireView, ApiErrorView>(reply->Body_0),
{
}

/// A login response that reports success and carries a session opens that
/// session: the login yields the response, the session's id in it.
pub proof fn lemma_login_yields_the_session(
    envelope: ResponseEnvelopeView,
    session: LoginResponseDataView,
)
    requires
        envelope.statuscode == 2000,
        envelope.clientrequestid is Some,
        envelope.longmessage is Some,
    ensures
        login_result(ReplyView::Body(response_wire(envelope, session_wire(session)))) is Ok,
        login_result(
            ReplyView::Body(response_wire(envelope, session_wire(session))),
        )->Ok_0.responsedata == session,
        login_result(
            ReplyView::Body(response_wire(envelope, session_wire(session))),
        )->Ok_0.statuscode == 2000,
{
    lemma_response_round_trip(envelope, session_wire(session));
    lemma_session_round_trip(session);
}

/// A login response that reports another code than that of success opens no
/// session: the login fails with that code, whatever else the response
/// holds.
pub proof fn lemma_login_refusal_carries_the_code(envelope: ResponseEnvelopeView, data: WireView)
    requires
        i32::MIN <= envelope.statuscode <= i32::MAX,
        envelope.statuscode != 2000,
    ensures
        login_result(ReplyView::Body(response_wire(envelope, data))) == Err::<
            LoginResponseView,
            ApiErrorView,
        >(refusal(envelope)),
{
    lemma_response_round_trip(envelope, data);
}

/// An update response that reports success and echoes records is a success
/// that holds those records.
pub proof fn lemma_update_yields_the_records(
    envelope: ResponseEnvelopeView,
    data: DnsRecordsResponseDataView,
)
    requires
        envelope.statuscode == 2000,
    ensures
        update_result(ReplyView::Body(response_wire(envelope, records_data_wire(data)))) is Ok,
        update_result(
            ReplyView::Body(response_wire(envelope, records_data_wire(data))),
        )->Ok_0.responsedata == Some(data),
{
    lemma_response_round_trip(envelope, records_data_wire(data));
    lemma_records_data_round_trip(data);
}

/// A records response that reports success and lists records is a success
/// that holds those records.
pub proof fn lemma_question_yields_the_records(
    envelope: ResponseEnvelopeView,
    data: DnsRecordsResponseDataView,
)
    requires
        envelope.statuscode == 2000,
        envelope.clientrequestid is Some,
        envelope.longmessage is Some,
    ensures
        dns_records_result(ReplyView::Body(response_wire(envelope, records_data_wire(data))))
            is Ok,
        dns_records_result(
            ReplyView::Body(response_wire(envelope, records_data_wire(data))),
        )->Ok_0.responsedata == Some(data),
{
    lemma_response_round_trip(envelope, records_data_wire(data));
    lemma_records_data_round_trip(data);
}

/// A reply that did not arrive, or holds no document, or a document without
/// the common fields, fails the call as a transport or a decode failure,
/// never as a refusal.
pub proof fn lemma_broken_reply_is_no_refusal(reply: ReplyView)
    requires
        !(reply is Body) || envelope_of(reply->Body_0) is None,
    ensures
        accepted(reply) == Err::<WireView, ApiErrorView>(
            if reply is Failed {
                ApiErrorView::TransportError
            } else {
                ApiErrorView::DecodeError
            },
        ),
{
}

} // verus!
