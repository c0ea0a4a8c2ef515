//! A connection to the API and the passes that it makes over the declared
//! domains.
//!
//! A pass is planned in one go and reported in one go. The plan is the list
//! of requests to post, one for each domain that declares records, in the
//! order of the declaration; the report pairs each request with the reply
//! that its posting brought. No reply changes what is asked of another
//! domain, so a domain that fails leaves the others as they are.

use vstd::prelude::*;
use crate::api_calls::{
    create_login_session, destroy_login_session, dns_records_result, info_dns_records,
    info_dns_records_frame, login_frame, login_outcome, login_result, logout_frame,
    update_dns_records, update_frame, update_outcome, update_result, dns_records_outcome,
    ApiError, ApiErrorView, Reply, ReplyView,
};
use crate::api_objects::{
    records_view, DnsRecord, DnsRecordView, InfoDnsRecordsFrame, InfoDnsRecordsFrameView,
    LoginRequestFrame, LogoutRequestFrame, UpdateDnsRecordsRequestFrame,
    UpdateDnsRecordsRequestFrameView,
};
use crate::configuration::{Configuration, ConfigurationView, CredentialsView, Domain, DomainView};

verus! {

/// The credentials and domains that calls are made for, and the session they
/// are made in. `session_id` is `None` until a login has succeeded, and again
/// after a logout.
#[derive(Debug, PartialEq, Eq)]
pub struct ApiConnection {
    pub configuration: Configuration,
    pub session_id: Option<String>,
}

/// The mathematical value of an [`ApiConnection`].
pub struct ApiConnectionView {
    pub configuration: ConfigurationView,
    pub session_id: Option<Seq<char>>,
}

impl View for ApiConnection {
    type V = ApiConnectionView;

    open spec fn view(&self) -> ApiConnectionView {
        ApiConnectionView {
            configuration: self.configuration@,
            session_id: match self.session_id {
                Some(id) => Some(id@),
                None => None,
            },
        }
    }
}

/// The domains of a configuration without their keys, in declared order.
pub open spec fn domains_of(configuration: ConfigurationView) -> Seq<DomainView> {
    Seq::new(configuration.domains.len(), |i: int| configuration.domains[i].1)
}

/// Whether a pass has anything to do with a domain: it has, if and only if
/// the domain declares records (be it none at all).
pub open spec fn is_managed(domain: DomainView) -> bool {
    domain.dns_records is Some
}

/// The domains that a pass calls the server for: those that declare records,
/// in declared order, each as often as it is declared.
pub open spec fn managed_domains(domains: Seq<DomainView>) -> Seq<DomainView>
    decreases domains.len(),
{
    if domains.len() == 0 {
        Seq::empty()
    } else if is_managed(domains.last()) {
        managed_domains(domains.drop_last()).push(domains.last())
    } else {
        managed_domains(domains.drop_last())
    }
}

/// The update that a pass asks for a domain: the domain's whole declared set.
pub open spec fn update_for(
    session_id: Seq<char>,
    credentials: CredentialsView,
    domain: DomainView,
) -> UpdateDnsRecordsRequestFrameView {
    update_frame(session_id, domain.domain_name, credentials, domain.declared())
}

/// The question that a pass asks for a domain.
pub open spec fn query_for(
    session_id: Seq<char>,
    credentials: CredentialsView,
    domain: DomainView,
) -> InfoDnsRecordsFrameView {
    info_dns_records_frame(session_id, domain.domain_name, credentials)
}

/// The requests of a synchronisation pass: one update for each managed
/// domain, in declared order.
pub open spec fn update_plan(
    session_id: Seq<char>,
    configuration: ConfigurationView,
) -> Seq<UpdateDnsRecordsRequestFrameView> {
    let managed = managed_domains(domains_of(configuration));
    Seq::new(
        managed.len(),
        |k: int| update_for(session_id, configuration.credentials, managed[k]),
    )
}

/// The requests of an information pass: one question for each managed
/// domain, in declared order.
pub open spec fn query_plan(
    session_id: Seq<char>,
    configuration: ConfigurationView,
) -> Seq<InfoDnsRecordsFrameView> {
    let managed = managed_domains(domains_of(configuration));
    Seq::new(
        managed.len(),
        |k: int| query_for(session_id, configuration.credentials, managed[k]),
    )
}

/// The values of a run of update requests, one for one.
pub open spec fn updates_view(frames: Seq<UpdateDnsRecordsRequestFrame>) -> Seq<
    UpdateDnsRecordsRequestFrameView,
> {
    Seq::new(frames.len(), |i: int| frames[i]@)
}

/// The values of a run of questions, one for one.
pub open spec fn queries_view(frames: Seq<InfoDnsRecordsFrame>) -> Seq<InfoDnsRecordsFrameView> {
    Seq::new(frames.len(), |i: int| frames[i]@)
}

/// The values of a run of domains, one for one.
pub open spec fn domain_values(entries: Seq<(String, Domain)>) -> Seq<DomainView> {
    Seq::new(entries.len(), |i: int| entries[i].1@)
}

impl ApiConnection {
    /// A connection for the given configuration, not logged in yet.
    pub fn new(configuration: Configuration) -> (connection: ApiConnection)
        ensures
            connection.configuration == configuration,
            connection.session_id is None,
    {
        ApiConnection { configuration, session_id: None }
    }

    /// The login request for this connection's credentials.
    pub fn login_request(&self) -> (frame: LoginRequestFrame)
        ensures
            frame@ == login_frame(self@.configuration.credentials),
    {
        create_login_session(&self.configuration.credentials)
    }

    /// Takes the reply to the login request. A reply that reports success
    /// and holds a session opens that session; any other leaves the
    /// connection without one and is returned as the error it stands for,
    /// the server's refusal with the very code that the server gave.
    pub fn login(&mut self, reply: &Reply) -> (outcome: Result<(), ApiError>)
        ensures
            final(self).configuration == old(self).configuration,
            match login_result(reply@) {
                Ok(response) => outcome is Ok && final(self)@.session_id == Some(
                    response.responsedata.apisessionid,
                ),
                Err(error) => outcome is Err && outcome->Err_0@ == error && final(self).session_id
                    is None,
            },
    {
        let login_response = login_outcome(reply);
        match login_response {
            Ok(response) => {
                self.session_id = Some(response.responsedata.apisessionid);
                Ok(())
            },
            Err(error) => {
                self.session_id = None;
                Err(error)
            },
        }
    }

    /// Ends the session, if there is one, and hands out the logout request
    /// to post for it. The connection has no session afterwards, whatever
    /// becomes of that request.
    pub fn logout(&mut self) -> (frame: Option<LogoutRequestFrame>)
        ensures
            final(self).configuration == old(self).configuration,
            final(self).session_id is None,
            match old(self)@.session_id {
                Some(id) => frame is Some && frame->0@ == logout_frame(
                    old(self)@.configuration.credentials,
                    id,
                ),
                None => frame is None,
            },
    {
        match self.session_id.take() {
            Some(session_id) => Some(
                destroy_login_session(&self.configuration.credentials, session_id),
            ),
            None => None,
        }
    }

    /// Plans an information pass: the questions to post, one for each
    /// managed domain in declared order. Without a session nothing is
    /// planned.
    pub fn get_dns_records(&self) -> (plan: Result<Vec<InfoDnsRecordsFrame>, ApiError>)
        ensures
            match self@.session_id {
                Some(id) => plan is Ok && queries_view(plan->Ok_0@) == query_plan(
                    id,
                    self@.configuration,
                ),
                None => plan == Err::<Vec<InfoDnsRecordsFrame>, ApiError>(
                    ApiError::SessionUnavailable,
                ),
            },
    {
        match &self.session_id {
            Some(session_id) => {
                let domains = &self.configuration.domains;
                let ghost all = domain_values(domains@);
                assert(all =~= domains_of(self@.configuration));
                let mut frames: Vec<InfoDnsRecordsFrame> = Vec::new();
                let mut i: usize = 0;
                while i < domains.len()
                    invariant
                        0 <= i <= domains.len(),
                        all == domain_values(domains@),
                        queries_view(frames@) == Seq::new(
                            managed_domains(all.take(i as int)).len(),
                            |k: int|
                                query_for(
                                    session_id@,
                                    self.configuration.credentials@,
                                    managed_domains(all.take(i as int))[k],
                                ),
                        ),
                    decreases domains.len() - i,
                {
                    let domain = &domains[i].1;
                    proof {
                        assert(all.take(i + 1).drop_last() =~= all.take(i as int));
                        assert(all.take(i + 1).last() == domain@);
                    }
                    let ghost before = frames@;
                    if domain.dns_records.is_some() {
                        let frame = info_dns_records(
                            session_id.clone(),
                            domain.domain_name.clone(),
                            &self.configuration.credentials,
                        );
                        frames.push(frame);
                        assert(queries_view(frames@) =~= queries_view(before).push(frame@));
                    }
                    assert(queries_view(frames@) =~= Seq::new(
                        managed_domains(all.take(i + 1)).len(),
                        |k: int|
                            query_for(
                                session_id@,
                                self.configuration.credentials@,
                                managed_domains(all.take(i + 1))[k],
                            ),
                    ));
                    i += 1;
                }
                assert(all.take(domains.len() as int) =~= all);
                Ok(frames)
            },
            None => Err(ApiError::SessionUnavailable),
        }
    }

    /// Plans a synchronisation pass: the updates to post, one for each
    /// managed domain in declared order, each with the domain's whole
    /// declared set. A domain that declares no records gets none. Without a
    /// session nothing is planned.
    pub fn update_dns_records(&self) -> (plan: Result<Vec<UpdateDnsRecordsRequestFrame>, ApiError>)
        ensures
            match self@.session_id {
                Some(id) => plan is Ok && updates_view(plan->Ok_0@) == update_plan(
                    id,
                    self@.configuration,
                ),
                None => plan == Err::<Vec<UpdateDnsRecordsRequestFrame>, ApiError>(
                    ApiError::SessionUnavailable,
                ),
            },
    {
        match &self.session_id {
            Some(session_id) => {
                let domains = &self.configuration.domains;
                let ghost all = domain_values(domains@);
                assert(all =~= domains_of(self@.configuration));
                let mut frames: Vec<UpdateDnsRecordsRequestFrame> = Vec::new();
                let mut i: usize = 0;
                while i < domains.len()
                    invariant
                        0 <= i <= domains.len(),
                        all == domain_values(domains@),
                        updates_view(frames@) == Seq::new(
                            managed_domains(all.take(i as int)).len(),
                            |k: int|
                                update_for(
                                    session_id@,
                                    self.configuration.credentials@,
                                    managed_domains(all.take(i as int))[k],
                                ),
                        ),
                    decreases domains.len() - i,
                {
                    let domain = &domains[i].1;
                    proof {
                        assert(all.take(i + 1).drop_last() =~= all.take(i as int));
                        assert(all.take(i + 1).last() == domain@);
                    }
                    let ghost before = frames@;
                    match domain.records() {
                        Some(records) => {
                            let frame = update_dns_records(
                                session_id.clone(),
                                domain.domain_name.clone(),
                                &self.configuration.credentials,
                                records,
                            );
                            assert(frame@.param.dnsrecordset.dnsrecords =~= domain@.declared());
                            frames.push(frame);
                            assert(updates_view(frames@) =~= updates_view(before).push(frame@));
                        },
                        None => {},
                    }
                    assert(updates_view(frames@) =~= Seq::new(
                        managed_domains(all.take(i + 1)).len(),
                        |k: int|
                            update_for(
                                session_id@,
                                self.configuration.credentials@,
                                managed_domains(all.take(i + 1))[k],
                            ),
                    ));
                    i += 1;
                }
                assert(all.take(domains.len() as int) =~= all);
                Ok(frames)
            },
            None => Err(ApiError::SessionUnavailable),
        }
    }
}

/// What a synchronisation pass came to for one domain: the status code that
/// the server answered the update with, or why the update failed.
#[derive(Debug, PartialEq, Eq)]
pub struct DomainOutcome {
    pub domain_name: String,
    pub result: Result<i32, ApiError>,
}

/// The mathematical value of a [`DomainOutcome`].
pub struct DomainOutcomeView {
    pub domain_name: Seq<char>,
    pub result: Result<int, ApiErrorView>,
}

impl View for DomainOutcome {
    type V = DomainOutcomeView;

    open spec fn view(&self) -> DomainOutcomeView {
        DomainOutcomeView {
            domain_name: self.domain_name@,
            result: match self.result {
                Ok(code) => Ok(code as int),
                Err(error) => Err(error@),
            },
        }
    }
}

/// What an information pass came to for one domain: the records that the
/// server has for it, or why the question failed.
#[derive(Debug, PartialEq, Eq)]
pub struct DomainRecords {
    pub domain_name: String,
    pub result: Result<Vec<DnsRecord>, ApiError>,
}

/// The mathematical value of a [`DomainRecords`].
pub struct DomainRecordsView {
    pub domain_name: Seq<char>,
    pub result: Result<Seq<DnsRecordView>, ApiErrorView>,
}

impl View for DomainRecords {
    type V = DomainRecordsView;

    open spec fn view(&self) -> DomainRecordsView {
        DomainRecordsView {
            domain_name: self.domain_name@,
            result: match self.result {
                Ok(records) => Ok(records_view(records@)),
                Err(error) => Err(error@),
            },
        }
    }
}

/// The values of a run of replies, one for one.
pub open spec fn replies_view(replies: Seq<Reply>) -> Seq<ReplyView> {
    Seq::new(replies.len(), |i: int| replies[i]@)
}

/// The values of a run of outcomes, one for one.
pub open spec fn outcomes_view(outcomes: Seq<DomainOutcome>) -> Seq<DomainOutcomeView> {
    Seq::new(outcomes.len(), |i: int| outcomes[i]@)
}

/// The values of a run of record reports, one for one.
pub open spec fn domain_records_view(reports: Seq<DomainRecords>) -> Seq<DomainRecordsView> {
    Seq::new(reports.len(), |i: int| reports[i]@)
}

/// The reply to the request at position `k`. A request that no reply is
/// there for counts as one that did not get through.
pub open spec fn reply_at(replies: Seq<ReplyView>, k: int) -> ReplyView {
    if 0 <= k < replies.len() {
        replies[k]
    } else {
        ReplyView::Failed
    }
}

/// What an update came to, as a report states it: the status code of the
/// response, or the error.
pub open spec fn update_status(reply: ReplyView) -> Result<int, ApiErrorView> {
    match update_result(reply) {
        Ok(response) => Ok(response.statuscode),
        Err(error) => Err(error),
    }
}

/// What a question for records came to, as a report states it: the records
/// of the response, or the error.
pub open spec fn reported_records(reply: ReplyView) -> Result<Seq<DnsRecordView>, ApiErrorView> {
    match dns_records_result(reply) {
        Ok(response) => match response.responsedata {
            Some(data) => Ok(data.dnsrecords),
            None => Err(ApiErrorView::DecodeError),
        },
        Err(error) => Err(error),
    }
}

/// The report of a synchronisation pass: for each request, in order, the
/// domain it names and what its own reply makes of it.
pub open spec fn update_report(
    requests: Seq<UpdateDnsRecordsRequestFrameView>,
    replies: Seq<ReplyView>,
) -> Seq<DomainOutcomeView> {
    Seq::new(
        requests.len(),
        |k: int|
            DomainOutcomeView {
                domain_name: requests[k].param.domainname,
                result: update_status(reply_at(replies, k)),
            },
    )
}

/// The report of an information pass: for each question, in order, the
/// domain it names and what its own reply makes of it.
pub open spec fn records_report(
    requests: Seq<InfoDnsRecordsFrameView>,
    replies: Seq<ReplyView>,
) -> Seq<DomainRecordsView> {
    Seq::new(
        requests.len(),
        |k: int|
            DomainRecordsView {
                domain_name: requests[k].param.domainname,
                result: reported_records(reply_at(replies, k)),
            },
    )
}

/// Whether an outcome is a failure.
pub open spec fn is_failure(outcome: DomainOutcomeView) -> bool {
    outcome.result is Err
}

/// Reports a synchronisation pass. `replies[k]` is what posting
/// `requests[k]` brought; a request without a reply counts as one that did
/// not get through. The report has one outcome for each request, in order,
/// and each outcome rests on its own reply alone.
pub fn report_updates(requests: &Vec<UpdateDnsRecordsRequestFrame>, replies: &Vec<Reply>) -> (report:
    Vec<DomainOutcome>)
    ensures
        outcomes_view(report@) == update_report(updates_view(requests@), replies_view(replies@)),
{
    let mut report: Vec<DomainOutcome> = Vec::new();
    let mut k: usize = 0;
    while k < requests.len()
        invariant
            0 <= k <= requests.len(),
            report@.len() == k,
            forall|j: int|
                0 <= j < k ==> (#[trigger] report@[j])@ == update_report(
                    updates_view(requests@),
                    replies_view(replies@),
                )[j],
        decreases requests.len() - k,
    {
        let outcome = if k < replies.len() {
            update_outcome(&replies[k])
        } else {
            Err(ApiError::TransportError)
        };
        let result = match outcome {
            Ok(response) => Ok(response.statuscode),
            Err(error) => Err(error),
        };
        report.push(DomainOutcome { domain_name: requests[k].param.domainname.clone(), result });
        k += 1;
    }
    assert(outcomes_view(report@) =~= update_report(
        updates_view(requests@),
        replies_view(replies@),
    ));
    report
}

/// Reports an information pass, as [`report_updates`] reports a
/// synchronisation pass.
pub fn report_records(requests: &Vec<InfoDnsRecordsFrame>, replies: &Vec<Reply>) -> (report: Vec<
    DomainRecords,
>)
    ensures
        domain_records_view(report@) == records_report(
            queries_view(requests@),
            replies_view(replies@),
        ),
{
    let mut report: Vec<DomainRecords> = Vec::new();
    let mut k: usize = 0;
    while k < requests.len()
        invariant
            0 <= k <= requests.len(),
            report@.len() == k,
            forall|j: int|
                0 <= j < k ==> (#[trigger] report@[j])@ == records_report(
                    queries_view(requests@),
                    replies_view(replies@),
                )[j],
        decreases requests.len() - k,
    {
        let outcome = if k < replies.len() {
            dns_records_outcome(&replies[k])
        } else {
            Err(ApiError::TransportError)
        };
        let result = match outcome {
            Ok(response) => match response.responsedata {
                Some(data) => Ok(data.dnsrecords),
                None => Err(ApiError::DecodeError),
            },
            Err(error) => Err(error),
        };
        report.push(DomainRecords { domain_name: requests[k].param.domainname.clone(), result });
        k += 1;
    }
    assert(domain_records_view(report@) =~= records_report(
        queries_view(requests@),
        replies_view(replies@),
    ));
    report
}

/// Says whether a synchronisation pass failed for any domain.
pub fn has_failures(report: &Vec<DomainOutcome>) -> (failed: bool)
    ensures
        failed == exists|k: int| 0 <= k < report@.len() && is_failure((#[trigger] report@[k])@),
{
    let mut k: usize = 0;
    while k < report.len()
        invariant
            0 <= k <= report.len(),
            forall|j: int| 0 <= j < k ==> !is_failure((#[trigger] report@[j])@),
        decreases report.len() - k,
    {
        if report[k].result.is_err() {
            assert(is_failure(report@[k as int]@));
            return true;
        }
        k += 1;
    }
    false
}

} // verus!
