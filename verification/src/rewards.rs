//! The reward dispatcher: what a domain action credits, and what it
//! reports when the credit fails.
//!
//! A domain action commits its own change first and rewards its caller
//! afterwards. A reward that fails never undoes the action: the action
//! reports its result together with a note on the failed reward.

use crate::errors::LedgerError;
use crate::ledger_model::LedgerOp;
use crate::token_system::{
    initialize_user_tokens, reward_community_post, reward_daily_engagement,
    reward_report_submission, Ledger, COMMUNITY_POST_REWARD, DAILY_ENGAGEMENT_REWARD,
    REPORT_SUBMISSION_REWARD,
};
use candid::Principal;
use vstd::prelude::*;
use vstd::string::StringExecFns;

verus! {

/// The actions that are rewarded.
#[derive(Clone, Copy, Debug, PartialEq, Eq, Structural)]
pub enum RewardKind {
    /// A user registered: the ledger grants the initial amount.
    Registration,
    DailyEngagement,
    ReportSubmission,
    CommunityPost,
}

impl RewardKind {
    /// The ledger operation that rewards `user` for an action of this kind.
    pub open spec fn operation(self, user: Principal, now: u64) -> LedgerOp {
        match self {
            RewardKind::Registration => LedgerOp::Initialize { user, now },
            RewardKind::DailyEngagement => LedgerOp::Earn {
                user,
                amount: DAILY_ENGAGEMENT_REWARD,
                description: "Daily engagement reward"@,
                now,
            },
            RewardKind::ReportSubmission => LedgerOp::Earn {
                user,
                amount: REPORT_SUBMISSION_REWARD,
                description: "Report submission reward"@,
                now,
            },
            RewardKind::CommunityPost => LedgerOp::Earn {
                user,
                amount: COMMUNITY_POST_REWARD,
                description: "Community post reward"@,
                now,
            },
        }
    }

    /// How the note on a failed reward of this kind begins.
    pub open spec fn failure_prefix(self) -> Seq<char> {
        match self {
            RewardKind::Registration => "User created but token initialization failed: "@,
            RewardKind::DailyEngagement => "Daily engagement recorded but token reward failed: "@,
            RewardKind::ReportSubmission => "Report submitted but token reward failed: "@,
            RewardKind::CommunityPost => "Community post recorded but token reward failed: "@,
        }
    }
}

/// The note on a reward of `kind` that failed for `reason`.
pub open spec fn failure_note(kind: RewardKind, reason: LedgerError) -> Seq<char> {
    kind.failure_prefix() + reason.message_text()
}

/// What a rewarded action reports once its own change is committed.
#[derive(Debug, PartialEq, Eq)]
pub enum ActionOutcome<T> {
    /// The action was committed and its reward credited.
    Completed(T),
    /// The action was committed, and stays so, but its reward failed.
    PartialFailure {
        /// The result of the action, as on full success.
        result: T,
        /// Why the ledger refused the reward.
        reason: LedgerError,
        /// A human-readable account of the failure.
        note: String,
    },
}

impl<T> ActionOutcome<T> {
    /// The result of the committed action.
    pub open spec fn result(self) -> T {
        match self {
            ActionOutcome::Completed(result) => result,
            ActionOutcome::PartialFailure { result, reason, note } => result,
        }
    }

    /// This is the outcome of an action with result `result` whose reward of
    /// `kind` ended as `reward`.
    pub open spec fn settles(
        self,
        result: T,
        kind: RewardKind,
        reward: Result<u64, LedgerError>,
    ) -> bool {
        match reward {
            Ok(_) => self == ActionOutcome::Completed(result),
            Err(failure) => match self {
                ActionOutcome::Completed(_) => false,
                ActionOutcome::PartialFailure { result: kept, reason, note } => {
                    &&& kept == result
                    &&& reason == failure
                    &&& note@ == failure_note(kind, failure)
                },
            },
        }
    }
}

/// Rewards `user` for an action of `kind`: the initial grant for a
/// registration, the fixed amount of the kind for the others.
pub fn dispatch_reward(ledger: &mut Ledger, user: Principal, kind: RewardKind, now: u64) -> (reward:
    Result<u64, LedgerError>)
    ensures
        old(ledger)@.wf(),
        final(ledger)@.wf(),
        reward == old(ledger)@.outcome(kind.operation(user, now)),
        final(ledger)@ == old(ledger)@.apply(kind.operation(user, now)),
{
    match kind {
        RewardKind::Registration => initialize_user_tokens(ledger, user, now),
        RewardKind::DailyEngagement => reward_daily_engagement(ledger, user, now),
        RewardKind::ReportSubmission => reward_report_submission(ledger, user, now),
        RewardKind::CommunityPost => reward_community_post(ledger, user, now),
    }
}

/// Combines the result of a committed action with the end of its reward:
/// the result alone if the reward was credited, the result with the reason
/// and a note if it was not.
pub fn settle<T>(result: T, kind: RewardKind, reward: Result<u64, LedgerError>) -> (outcome:
    ActionOutcome<T>)
    ensures
        outcome.settles(result, kind, reward),
        outcome.result() == result,
{
    match reward {
        Ok(_) => ActionOutcome::Completed(result),
        Err(reason) => {
            let mut note = match kind {
                RewardKind::Registration => {
                    "User created but token initialization failed: ".to_owned()
                },
                RewardKind::DailyEngagement => {
                    "Daily engagement recorded but token reward failed: ".to_owned()
                },
                RewardKind::ReportSubmission => {
                    "Report submitted but token reward failed: ".to_owned()
                },
                RewardKind::CommunityPost => {
                    "Community post recorded but token reward failed: ".to_owned()
                },
            };
            let message = reason.message();
            note.append(message.as_str());
            ActionOutcome::PartialFailure { result, reason, note }
        },
    }
}

} // verus!
