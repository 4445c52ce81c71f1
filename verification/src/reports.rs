//! Incident reports. Submitting one is rewarded.

use crate::entity_store::EntityStore;
use crate::errors::ActionError;
use crate::rewards::{dispatch_reward, settle, ActionOutcome, RewardKind};
use crate::services::{Priority, RequestStatus, ServiceType};
use crate::token_system::Ledger;
use candid::Principal;
use vstd::prelude::*;

verus! {

/// Where the handling of a report stands.
#[derive(Clone, Copy, Debug, PartialEq, Eq, Structural)]
pub enum ReportStatus {
    Pending,
    InProgress,
    Completed,
}

/// What a caller hands in to report an incident.
#[derive(Debug, PartialEq, Eq)]
pub struct SubmitReportInput {
    pub service_type: ServiceType,
    pub description: String,
    pub priority: Priority,
}

/// A stored report.
#[derive(Debug, PartialEq, Eq)]
pub struct ReportRequest {
    pub id: u64,
    pub user: Principal,
    pub service_type: ServiceType,
    pub description: String,
    pub status: RequestStatus,
    pub timestamp: u64,
    pub priority: Priority,
}

impl Clone for ReportRequest {
    fn clone(&self) -> (copy: Self)
        ensures
            copy == *self,
    {
        ReportRequest {
            id: self.id,
            user: self.user,
            service_type: self.service_type,
            description: self.description.clone(),
            status: self.status,
            timestamp: self.timestamp,
            priority: self.priority,
        }
    }
}

/// Every report carries the id it is stored under.
pub open spec fn reports_carry_their_ids(reports: Map<u64, ReportRequest>) -> bool {
    forall|id: u64| #[trigger] reports.contains_key(id) ==> reports[id].id == id
}

/// The report that `submit_report` stores for `request`.
pub open spec fn new_report(id: u64, caller: Principal, now: u64, request: SubmitReportInput)
    -> ReportRequest {
    ReportRequest {
        id,
        user: caller,
        service_type: request.service_type,
        description: request.description,
        status: RequestStatus::Pending,
        timestamp: now,
        priority: request.priority,
    }
}

/// Stores a report of `caller` and credits the report submission reward.
///
/// A report with an empty description is refused with `EmptyDescription`
/// before anything is stored or credited. Otherwise the report is stored as
/// pending under the next report id, and then the reward is credited to
/// `caller`. The report stays stored whether or not the ledger accepts the
/// reward: the outcome carries the report id either way, and the reason and
/// a note if the reward failed.
pub fn submit_report(
    reports: &mut EntityStore<ReportRequest>,
    ledger: &mut Ledger,
    caller: Principal,
    now: u64,
    request: SubmitReportInput,
) -> (result: Result<ActionOutcome<u64>, ActionError>)
    ensures
        old(ledger)@.wf(),
        final(ledger)@.wf(),
        reports_carry_their_ids(old(reports)@) ==> reports_carry_their_ids(final(reports)@),
        request.description@.len() == 0 ==> {
            &&& result == Err::<ActionOutcome<u64>, ActionError>(ActionError::EmptyDescription)
            &&& final(reports)@ == old(reports)@
            &&& final(reports).next_id() == old(reports).next_id()
            &&& final(ledger)@ == old(ledger)@
        },
        request.description@.len() > 0 ==> {
            let id = old(reports).next_id() as u64;
            let reward = RewardKind::ReportSubmission.operation(caller, now);
            &&& result is Ok
            &&& result->Ok_0.settles(id, RewardKind::ReportSubmission, old(ledger)@.outcome(reward))
            &&& final(reports)@ == old(reports)@.insert(id, new_report(id, caller, now, request))
            &&& final(reports).next_id() == old(reports).next_id() + 1
            &&& final(ledger)@ == old(ledger)@.apply(reward)
        },
{
    if request.description.as_str().is_empty() {
        proof {
            use_type_invariant(&*ledger);
            ledger.lemma_view_wf();
        }
        return Err(ActionError::EmptyDescription);
    }
    let report_id = reports.upcoming_id();
    let report = ReportRequest {
        id: report_id,
        user: caller,
        service_type: request.service_type,
        description: request.description,
        status: RequestStatus::Pending,
        timestamp: now,
        priority: request.priority,
    };
    reports.add(report);
    let reward = dispatch_reward(ledger, caller, RewardKind::ReportSubmission, now);
    Ok(settle(report_id, RewardKind::ReportSubmission, reward))
}

/// The report stored under `id`, if there is one.
pub fn get_report(reports: &EntityStore<ReportRequest>, id: u64) -> (found: Option<ReportRequest>)
    ensures
        found == if reports@.contains_key(id) {
            Some(reports@[id])
        } else {
            None
        },
{
    match reports.get(id) {
        Some(report) => Some(report.clone()),
        None => None,
    }
}

} // verus!
