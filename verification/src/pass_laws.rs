//! What holds of every pass over the declared domains.
//!
//! The laws of a plan are stated of the domains that a pass calls for
//! ([`managed_domains`]); the requests of a plan are made from these one for
//! one. The laws of a report are stated of the synchronisation pass; the
//! information pass is reported in the same way.

use vstd::prelude::*;
use crate::api_calls::{ApiErrorView, ReplyView, accepted, update_result};
use crate::api_objects::UpdateDnsRecordsRequestFrameView;
use crate::configuration::{ConfigurationView, DomainView};
use crate::decode::envelope_of;
use crate::domain_utils::{
    domains_of, is_managed, managed_domains, query_for, query_plan, reply_at, update_for,
    update_plan, update_report, update_status,
};

verus! {

/// The place in a plan of the request for the domain declared at `i`: as
/// many requests stand before it as managed domains are declared before `i`.
pub open spec fn call_position(domains: Seq<DomainView>, i: int) -> int {
    managed_domains(domains.take(i)).len() as int
}

/// A domain that declares no records is passed over: the domains called for
/// are the same with it as without it.
pub proof fn lemma_unmanaged_domain_is_skipped(domains: Seq<DomainView>, i: int)
    requires
        0 <= i < domains.len(),
        domains[i].dns_records is None,
    ensures
        managed_domains(domains.take(i + 1)) == managed_domains(domains.take(i)),
{
    assert(domains.take(i + 1).drop_last() =~= domains.take(i));
}

/// A domain that declares records is called for once, after the domains
/// declared before it.
pub proof fn lemma_managed_domain_is_called_once(domains: Seq<DomainView>, i: int)
    requires
        0 <= i < domains.len(),
        domains[i].dns_records is Some,
    ensures
        managed_domains(domains.take(i + 1)) == managed_domains(domains.take(i)).push(domains[i]),
{
    assert(domains.take(i + 1).drop_last() =~= domains.take(i));
}

/// The domains called for among the first `i` are the first of the domains
/// called for in all.
pub proof fn lemma_calls_come_in_declared_order(domains: Seq<DomainView>, i: int)
    requires
        0 <= i <= domains.len(),
    ensures
        call_position(domains, i) <= managed_domains(domains).len(),
        managed_domains(domains).take(call_position(domains, i)) == managed_domains(
            domains.take(i),
        ),
    decreases domains.len(),
{
    if i == domains.len() {
        assert(domains.take(i) =~= domains);
        assert(managed_domains(domains).take(call_position(domains, i)) =~= managed_domains(
            domains,
        ));
    } else {
        let shorter = domains.drop_last();
        lemma_calls_come_in_declared_order(shorter, i);
        assert(shorter.take(i) =~= domains.take(i));
        assert(managed_domains(domains).take(call_position(domains, i)) =~= managed_domains(
            shorter,
        ).take(call_position(shorter, i)));
    }
}

/// Every managed domain has its call: at the domain's place the domains
/// called for hold that very domain.
pub proof fn lemma_managed_domain_has_its_call(domains: Seq<DomainView>, i: int)
    requires
        0 <= i < domains.len(),
        is_managed(domains[i]),
    ensures
        0 <= call_position(domains, i) < managed_domains(domains).len(),
        managed_domains(domains)[call_position(domains, i)] == domains[i],
{
    lemma_managed_domain_is_called_once(domains, i);
    lemma_calls_come_in_declared_order(domains, i + 1);
    let k = call_position(domains, i);
    assert(managed_domains(domains).take(k + 1)[k] == managed_domains(domains.take(i + 1))[k]);
}

/// No two declared domains share a call: a managed domain's place lies
/// before the place of every domain declared after it.
pub proof fn lemma_calls_are_not_shared(domains: Seq<DomainView>, i: int, j: int)
    requires
        0 <= i < j <= domains.len(),
        is_managed(domains[i]),
    ensures
        call_position(domains, i) < call_position(domains, j),
{
    lemma_managed_domain_is_called_once(domains, i);
    let upto = domains.take(j);
    lemma_calls_come_in_declared_order(upto, i + 1);
    assert(upto.take(i + 1) =~= domains.take(i + 1));
}

/// Every call has its managed domain: what stands at place `k` is a domain
/// that declares records and has that place. A domain that declares none
/// has therefore no call.
pub proof fn lemma_call_has_its_managed_domain(domains: Seq<DomainView>, k: int) -> (i: int)
    requires
        0 <= k < managed_domains(domains).len(),
    ensures
        0 <= i < domains.len(),
        is_managed(domains[i]),
        call_position(domains, i) == k,
        managed_domains(domains)[k] == domains[i],
    decreases domains.len(),
{
    let last = domains.len() - 1;
    let shorter = domains.drop_last();
    assert(domains.take(last) =~= shorter);
    if is_managed(domains.last()) && k == managed_domains(shorter).len() {
        last
    } else {
        let i = lemma_call_has_its_managed_domain(shorter, k);
        assert(shorter.take(i) =~= domains.take(i));
        i
    }
}

/// In a synchronisation pass every managed domain gets exactly one update,
/// at its own place in the plan, and the update names the domain and holds
/// all the records that the domain declares, in declared order.
pub proof fn lemma_update_holds_the_declared_set(
    session_id: Seq<char>,
    configuration: ConfigurationView,
    i: int,
)
    requires
        0 <= i < configuration.domains.len(),
        configuration.domains[i].1.dns_records is Some,
    ensures
        update_plan(session_id, configuration).len() == managed_domains(
            domains_of(configuration),
        ).len(),
        0 <= call_position(domains_of(configuration), i) < update_plan(
            session_id,
            configuration,
        ).len(),
        update_plan(session_id, configuration)[call_position(domains_of(configuration), i)]
            == update_for(session_id, configuration.credentials, configuration.domains[i].1),
        update_plan(session_id, configuration)[call_position(
            domains_of(configuration),
            i,
        )].param.domainname == configuration.domains[i].1.domain_name,
        update_plan(session_id, configuration)[call_position(
            domains_of(configuration),
            i,
        )].param.dnsrecordset.dnsrecords == configuration.domains[i].1.declared(),
{
    lemma_managed_domain_has_its_call(domains_of(configuration), i);
}

/// In a synchronisation pass every update belongs to a managed domain: the
/// request at place `k` is the update of a domain that declares records and
/// has that place. No update is planned for a domain that declares none.
pub proof fn lemma_update_belongs_to_a_managed_domain(
    session_id: Seq<char>,
    configuration: ConfigurationView,
    k: int,
) -> (i: int)
    requires
        0 <= k < update_plan(session_id, configuration).len(),
    ensures
        0 <= i < configuration.domains.len(),
        configuration.domains[i].1.dns_records is Some,
        call_position(domains_of(configuration), i) == k,
        update_plan(session_id, configuration)[k] == update_for(
            session_id,
            configuration.credentials,
            configuration.domains[i].1,
        ),
{
    lemma_call_has_its_managed_domain(domains_of(configuration), k)
}

/// In an information pass every managed domain gets exactly one question, at
/// its own place in the plan.
pub proof fn lemma_question_for_each_managed_domain(
    session_id: Seq<char>,
    configuration: ConfigurationView,
    i: int,
)
    requires
        0 <= i < configuration.domains.len(),
        configuration.domains[i].1.dns_records is Some,
    ensures
        0 <= call_position(domains_of(configuration), i) < query_plan(
            session_id,
            configuration,
        ).len(),
        query_plan(session_id, configuration)[call_position(domains_of(configuration), i)]
            == query_for(session_id, configuration.credentials, configuration.domains[i].1),
{
    lemma_managed_domain_has_its_call(domains_of(configuration), i);
}

/// In an information pass every question belongs to a managed domain.
pub proof fn lemma_question_belongs_to_a_managed_domain(
    session_id: Seq<char>,
    configuration: ConfigurationView,
    k: int,
) -> (i: int)
    requires
        0 <= k < query_plan(session_id, configuration).len(),
    ensures
        0 <= i < configuration.domains.len(),
        configuration.domains[i].1.dns_records is Some,
        call_position(domains_of(configuration), i) == k,
        query_plan(session_id, configuration)[k] == query_for(
            session_id,
            configuration.credentials,
            configuration.domains[i].1,
        ),
{
    lemma_call_has_its_managed_domain(domains_of(configuration), k)
}

/// A report has one outcome for each request of the plan, whatever the
/// replies were: as many outcomes as managed domains.
pub proof fn lemma_report_covers_the_plan(
    requests: Seq<UpdateDnsRecordsRequestFrameView>,
    replies: Seq<ReplyView>,
)
    ensures
        update_report(requests, replies).len() == requests.len(),
        forall|k: int|
            0 <= k < requests.len() ==> (#[trigger] update_report(requests, replies)[k]).domain_name
                == requests[k].param.domainname,
{
}

/// A failure stays with its domain. Had the call at place `k` been answered
/// otherwise, the report would differ at place `k` at most: every other
/// domain's outcome is what its own reply makes of it.
pub proof fn lemma_failure_stays_with_its_domain(
    requests: Seq<UpdateDnsRecordsRequestFrameView>,
    replies: Seq<ReplyView>,
    k: int,
    other: ReplyView,
)
    requires
        0 <= k < replies.len(),
    ensures
        forall|j: int|
            0 <= j < requests.len() && j != k ==> #[trigger] update_report(
                requests,
                replies.update(k, other),
            )[j] == update_report(requests, replies)[j],
        k < requests.len() ==> update_report(requests, replies.update(k, other))[k].result
            == update_status(other),
{
    assert forall|j: int| 0 <= j < requests.len() && j != k implies #[trigger] update_report(
        requests,
        replies.update(k, other),
    )[j] == update_report(requests, replies)[j] by {
        assert(reply_at(replies.update(k, other), j) == reply_at(replies, j));
    }
}

/// The server's refusal of an update is reported with the server's own code
/// and messages.
pub proof fn lemma_refused_update_is_reported(
    requests: Seq<UpdateDnsRecordsRequestFrameView>,
    replies: Seq<ReplyView>,
    k: int,
)
    requires
        0 <= k < requests.len(),
        k < replies.len(),
        replies[k] is Body,
        envelope_of(replies[k]->Body_0) is Some,
        envelope_of(replies[k]->Body_0)->0.statuscode != 2000,
    ensures
        update_report(requests, replies)[k].result == Err::<int, ApiErrorView>(
            ApiErrorView::ApiFailure {
                statuscode: envelope_of(replies[k]->Body_0)->0.statuscode,
                shortmessage: envelope_of(replies[k]->Body_0)->0.shortmessage,
                longmessage: envelope_of(replies[k]->Body_0)->0.longmessage,
            },
        ),
{
    assert(accepted(replies[k]) is Err);
    assert(update_result(replies[k]) is Err);
}

/// An update that succeeded is reported with the code of success.
pub proof fn lemma_success_is_reported_with_its_code(reply: ReplyView)
    requires
        update_status(reply) is Ok,
    ensures
        update_status(reply) == Ok::<int, ApiErrorView>(2000),
{
    assert(accepted(reply) is Ok);
}

} // verus!
