//! Token ledger and domain records of an incident and service-request
//! platform.
//!
//! The ledger keeps one balance per identity and an append-only transaction
//! log; domain actions (registration, report submission) reward their caller
//! through it. All state lives in explicit values that the caller owns, and
//! the caller supplies the identity and the clock reading of each operation.

use vstd::prelude::*;
use vstd::string::StringExecFns;

pub mod admins;
pub mod appointments;
pub mod entity_store;
pub mod errors;
pub mod id_allocator;
pub mod identity;
pub mod ledger_laws;
pub mod ledger_model;
pub mod principal_map;
pub mod providers;
pub mod reports;
pub mod rewards;
pub mod seq_lemmas;
pub mod services;
pub mod token_system;
pub mod users;

pub use admins::{add_admin, check_is_admin};
pub use appointments::{
    get_appointment, get_user_appointments, schedule_appointment, update_appointment_status,
    Appointment, AppointmentStatus, ScheduleAppointmentInput,
};
pub use entity_store::EntityStore;
pub use errors::{ActionError, LedgerError};
pub use id_allocator::IdAllocator;
pub use principal_map::PrincipalMap;
pub use providers::{
    add_provider, get_all_providers, Provider, ProviderInput, ProviderRegistry, ProviderSummary,
};
pub use reports::{get_report, submit_report, ReportRequest, ReportStatus, SubmitReportInput};
pub use rewards::{dispatch_reward, settle, ActionOutcome, RewardKind};
pub use services::{
    get_service_request, get_service_requests, get_service_stats, get_user_service_requests,
    submit_service_request, update_request_status, Priority, RequestStatus, ServiceRequest,
    ServiceRequestInput, ServiceStats, ServiceType,
};
pub use token_system::{
    earn_tokens, get_token_balance, get_transaction_history, initialize_user_tokens,
    reward_community_post, reward_daily_engagement, reward_report_submission, spend_tokens,
    Ledger, TokenBalance, TokenTransaction,
};
pub use users::{register_user, User, UserRegistration};

verus! {

/// A greeting for `name`.
pub fn greet(name: String) -> (greeting: String)
    ensures
        greeting@ == "Hello, "@ + name@ + "!"@,
{
    let mut greeting = "Hello, ".to_owned();
    greeting.append(name.as_str());
    greeting.append("!");
    greeting
}

} // verus!
