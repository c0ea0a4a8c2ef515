//! The runs that the program offers, each from the reply to its login on.
//!
//! A run logs in once. The caller posts the login request of the
//! configuration's credentials and hands the reply to the run's function,
//! which opens the session and plans the pass; a login that fails ends the
//! run before any domain is touched.

use vstd::prelude::*;
use crate::api_calls::{login_result, ApiError, Reply};
use crate::api_objects::{InfoDnsRecordsFrame, UpdateDnsRecordsRequestFrame};
use crate::configuration::Configuration;
use crate::domain_utils::{queries_view, query_plan, update_plan, updates_view, ApiConnection};

verus! {

/// The synchronisation run. On a login that succeeded, the updates to post:
/// one for each managed domain, in declared order, in the session that the
/// login opened. On any other login reply, the error; nothing is planned
/// then.
pub fn default_branch_command(config: Configuration, login_reply: &Reply) -> (plan: Result<
    Vec<UpdateDnsRecordsRequestFrame>,
    ApiError,
>)
    ensures
        match login_result(login_reply@) {
            Ok(response) => plan is Ok && updates_view(plan->Ok_0@) == update_plan(
                response.responsedata.apisessionid,
                config@,
            ),
            Err(error) => plan is Err && plan->Err_0@ == error,
        },
{
    let mut connection = ApiConnection::new(config);
    match connection.login(login_reply) {
        Ok(()) => connection.update_dns_records(),
        Err(error) => Err(error),
    }
}

/// The run that checks a configuration. A configuration that could be read
/// at all is in order, so nothing is left to do here.
#[allow(unused_variables)]
pub fn test_branch_command(config: Configuration, verbose: bool) {
}

/// The information run. On a login that succeeded, the questions to post:
/// one for each managed domain, in declared order, in the session that the
/// login opened. On any other login reply, the error; nothing is planned
/// then.
pub fn info_branch_command(config: Configuration, login_reply: &Reply) -> (plan: Result<
    Vec<InfoDnsRecordsFrame>,
    ApiError,
>)
    ensures
        match login_result(login_reply@) {
            Ok(response) => plan is Ok && queries_view(plan->Ok_0@) == query_plan(
                response.responsedata.apisessionid,
                config@,
            ),
            Err(error) => plan is Err && plan->Err_0@ == error,
        },
{
    let mut connection = ApiConnection::new(config);
    match connection.login(login_reply) {
        Ok(()) => connection.get_dns_records(),
        Err(error) => Err(error),
    }
}

} // verus!
