use candid::Principal;
use kintaraa_backend::{
    dispatch_reward, earn_tokens, get_report, get_token_balance, get_transaction_history,
    initialize_user_tokens, register_user, settle, spend_tokens, submit_report, ActionError,
    ActionOutcome, EntityStore, Ledger, LedgerError, PrincipalMap, Priority, ReportRequest,
    RequestStatus, RewardKind, ServiceType, SubmitReportInput, TokenBalance, User,
    UserRegistration,
};

fn alice() -> Principal {
    Principal::from_slice(&[1])
}

fn bob() -> Principal {
    Principal::from_slice(&[2])
}

fn report(description: &str) -> SubmitReportInput {
    SubmitReportInput {
        service_type: ServiceType::Police,
        description: description.to_string(),
        priority: Priority::High,
    }
}

fn registration(name: &str) -> UserRegistration {
    UserRegistration {
        user_type: "survivor".to_string(),
        full_name: name.to_string(),
        email: "x@example.org".to_string(),
        license_number: None,
        organization: Some("org".to_string()),
    }
}

#[test]
fn a_report_with_an_empty_description_is_refused_before_anything_happens() {
    let mut reports: EntityStore<ReportRequest> = EntityStore::new();
    let mut ledger = Ledger::new();
    initialize_user_tokens(&mut ledger, alice(), 1).unwrap();
    assert_eq!(
        submit_report(&mut reports, &mut ledger, alice(), 2, report("")),
        Err(ActionError::EmptyDescription)
    );
    assert_eq!(get_report(&reports, 0), None);
    assert_eq!(reports.upcoming_id(), 0);
    assert_eq!(
        get_token_balance(&ledger, alice()),
        Ok(TokenBalance { balance: 500, last_updated: 1, total_earned: 500, total_spent: 0 })
    );
    assert_eq!(get_transaction_history(&ledger, alice()).len(), 1);
}

#[test]
fn a_valid_report_is_stored_and_rewarded() {
    let mut reports: EntityStore<ReportRequest> = EntityStore::new();
    let mut ledger = Ledger::new();
    initialize_user_tokens(&mut ledger, alice(), 1).unwrap();
    assert_eq!(
        submit_report(&mut reports, &mut ledger, alice(), 2, report("broken window")),
        Ok(ActionOutcome::Completed(0))
    );
    assert_eq!(
        get_report(&reports, 0),
        Some(ReportRequest {
            id: 0,
            user: alice(),
            service_type: ServiceType::Police,
            description: "broken window".to_string(),
            status: RequestStatus::Pending,
            timestamp: 2,
            priority: Priority::High,
        })
    );
    assert_eq!(
        get_token_balance(&ledger, alice()),
        Ok(TokenBalance { balance: 550, last_updated: 2, total_earned: 550, total_spent: 0 })
    );
    let history = get_transaction_history(&ledger, alice());
    assert_eq!(history.len(), 2);
    assert_eq!(history[1].amount, 50);
    assert_eq!(history[1].description, "Report submission reward");
    assert_eq!(history[1].timestamp, 2);
}

#[test]
fn a_report_stays_stored_when_its_reward_fails() {
    let mut reports: EntityStore<ReportRequest> = EntityStore::new();
    let mut ledger = Ledger::new();
    // bob has no balance record, so the ledger refuses the reward.
    let outcome = submit_report(&mut reports, &mut ledger, bob(), 2, report("noise"));
    assert_eq!(
        outcome,
        Ok(ActionOutcome::PartialFailure {
            result: 0,
            reason: LedgerError::NotFound,
            note: "Report submitted but token reward failed: User not found".to_string(),
        })
    );
    let stored = get_report(&reports, 0).unwrap();
    assert_eq!(stored.user, bob());
    assert_eq!(stored.description, "noise");
    assert_eq!(get_token_balance(&ledger, bob()), Err(LedgerError::NotFound));
    assert!(get_transaction_history(&ledger, bob()).is_empty());
}

#[test]
fn a_report_stays_stored_when_its_reward_overflows() {
    let mut reports: EntityStore<ReportRequest> = EntityStore::new();
    let mut ledger = Ledger::new();
    initialize_user_tokens(&mut ledger, alice(), 1).unwrap();
    earn_tokens(&mut ledger, alice(), i64::MAX as u64, "a".to_string(), 2).unwrap();
    let room = u64::MAX - get_token_balance(&ledger, alice()).unwrap().total_earned;
    earn_tokens(&mut ledger, alice(), room - 49, "b".to_string(), 3).unwrap();
    let outcome = submit_report(&mut reports, &mut ledger, alice(), 4, report("late"));
    assert_eq!(
        outcome,
        Ok(ActionOutcome::PartialFailure {
            result: 0,
            reason: LedgerError::Overflow,
            note: "Report submitted but token reward failed: Token amount out of range"
                .to_string(),
        })
    );
    assert!(get_report(&reports, 0).is_some());
    assert_eq!(get_token_balance(&ledger, alice()).unwrap().total_earned, u64::MAX - 49);
    assert_eq!(get_transaction_history(&ledger, alice()).len(), 3);
    // Spending makes no room: the lifetime earnings stay where they are.
    spend_tokens(&mut ledger, alice(), 1, "c".to_string(), None, 5).unwrap();
    let again = submit_report(&mut reports, &mut ledger, alice(), 6, report("later"));
    assert!(matches!(
        again,
        Ok(ActionOutcome::PartialFailure { result: 1, reason: LedgerError::Overflow, .. })
    ));
}

#[test]
fn report_ids_count_up_whatever_becomes_of_the_rewards() {
    let mut reports: EntityStore<ReportRequest> = EntityStore::new();
    let mut ledger = Ledger::new();
    initialize_user_tokens(&mut ledger, alice(), 1).unwrap();
    let a = submit_report(&mut reports, &mut ledger, alice(), 2, report("one")).unwrap();
    let refused = submit_report(&mut reports, &mut ledger, alice(), 3, report(""));
    let b = submit_report(&mut reports, &mut ledger, bob(), 4, report("two")).unwrap();
    let c = submit_report(&mut reports, &mut ledger, alice(), 5, report("three")).unwrap();
    assert_eq!(a, ActionOutcome::Completed(0));
    assert_eq!(refused, Err(ActionError::EmptyDescription));
    assert!(matches!(b, ActionOutcome::PartialFailure { result: 1, .. }));
    assert_eq!(c, ActionOutcome::Completed(2));
    assert_eq!(get_token_balance(&ledger, alice()).unwrap().balance, 600);
    let ids: Vec<u64> = get_transaction_history(&ledger, alice()).iter().map(|t| t.id).collect();
    assert_eq!(ids, vec![0, 1, 2]);
}

#[test]
fn registering_stores_the_user_and_grants_the_initial_tokens() {
    let mut users: PrincipalMap<User> = PrincipalMap::new();
    let mut ledger = Ledger::new();
    assert_eq!(
        register_user(&mut users, &mut ledger, alice(), 7, registration("Alice")),
        Ok(ActionOutcome::Completed(alice()))
    );
    assert_eq!(
        users.get(alice()),
        Some(&User {
            id: alice(),
            user_type: "survivor".to_string(),
            full_name: "Alice".to_string(),
            email: "x@example.org".to_string(),
            license_number: None,
            organization: Some("org".to_string()),
            created_at: 7,
        })
    );
    assert_eq!(
        get_token_balance(&ledger, alice()),
        Ok(TokenBalance { balance: 500, last_updated: 7, total_earned: 500, total_spent: 0 })
    );
    let history = get_transaction_history(&ledger, alice());
    assert_eq!(history.len(), 1);
    assert_eq!(history[0].description, "Initial token grant");
}

#[test]
fn registering_twice_is_refused_and_changes_nothing() {
    let mut users: PrincipalMap<User> = PrincipalMap::new();
    let mut ledger = Ledger::new();
    register_user(&mut users, &mut ledger, alice(), 7, registration("Alice")).unwrap();
    assert_eq!(
        register_user(&mut users, &mut ledger, alice(), 8, registration("Alicia")),
        Err(ActionError::AlreadyRegistered)
    );
    assert_eq!(users.len(), 1);
    assert_eq!(users.get(alice()).unwrap().full_name, "Alice");
    assert_eq!(users.get(alice()).unwrap().created_at, 7);
    assert_eq!(get_transaction_history(&ledger, alice()).len(), 1);
    assert_eq!(get_token_balance(&ledger, alice()).unwrap().last_updated, 7);
}

#[test]
fn a_user_stays_registered_when_the_grant_fails() {
    let mut users: PrincipalMap<User> = PrincipalMap::new();
    let mut ledger = Ledger::new();
    // alice got her tokens before she registered.
    initialize_user_tokens(&mut ledger, alice(), 1).unwrap();
    earn_tokens(&mut ledger, alice(), 5, "x".to_string(), 2).unwrap();
    let outcome = register_user(&mut users, &mut ledger, alice(), 3, registration("Alice"));
    assert_eq!(
        outcome,
        Ok(ActionOutcome::PartialFailure {
            result: alice(),
            reason: LedgerError::AlreadyInitialized,
            note: "User created but token initialization failed: User already initialized"
                .to_string(),
        })
    );
    assert!(users.contains_key(alice()));
    assert_eq!(users.get(alice()).unwrap().created_at, 3);
    assert_eq!(
        get_token_balance(&ledger, alice()),
        Ok(TokenBalance { balance: 505, last_updated: 2, total_earned: 505, total_spent: 0 })
    );
    assert_eq!(get_transaction_history(&ledger, alice()).len(), 2);
}

#[test]
fn registrations_of_different_users_are_independent() {
    let mut users: PrincipalMap<User> = PrincipalMap::new();
    let mut ledger = Ledger::new();
    register_user(&mut users, &mut ledger, alice(), 1, registration("Alice")).unwrap();
    register_user(&mut users, &mut ledger, bob(), 2, registration("Bob")).unwrap();
    assert_eq!(users.len(), 2);
    assert_eq!(get_transaction_history(&ledger, alice())[0].id, 0);
    assert_eq!(get_transaction_history(&ledger, bob())[0].id, 1);
}

#[test]
fn dispatch_credits_the_amount_of_each_kind() {
    let mut ledger = Ledger::new();
    assert_eq!(dispatch_reward(&mut ledger, alice(), RewardKind::Registration, 1), Ok(500));
    assert_eq!(dispatch_reward(&mut ledger, alice(), RewardKind::DailyEngagement, 2), Ok(510));
    assert_eq!(dispatch_reward(&mut ledger, alice(), RewardKind::ReportSubmission, 3), Ok(560));
    assert_eq!(dispatch_reward(&mut ledger, alice(), RewardKind::CommunityPost, 4), Ok(565));
    let history = get_transaction_history(&ledger, alice());
    assert_eq!(history.iter().map(|t| t.amount).collect::<Vec<i64>>(), vec![500, 10, 50, 5]);
    assert_eq!(
        history.iter().map(|t| t.description.as_str()).collect::<Vec<&str>>(),
        vec![
            "Initial token grant",
            "Daily engagement reward",
            "Report submission reward",
            "Community post reward"
        ]
    );
}

#[test]
fn dispatch_hands_back_the_error_of_the_ledger() {
    let mut ledger = Ledger::new();
    assert_eq!(
        dispatch_reward(&mut ledger, alice(), RewardKind::DailyEngagement, 1),
        Err(LedgerError::NotFound)
    );
    dispatch_reward(&mut ledger, alice(), RewardKind::Registration, 2).unwrap();
    assert_eq!(
        dispatch_reward(&mut ledger, alice(), RewardKind::Registration, 3),
        Err(LedgerError::AlreadyInitialized)
    );
    assert_eq!(get_transaction_history(&ledger, alice()).len(), 1);
}

#[test]
fn settle_keeps_the_result_when_the_reward_was_credited() {
    assert_eq!(settle(17u64, RewardKind::ReportSubmission, Ok(550)), ActionOutcome::Completed(17));
    assert_eq!(settle("id", RewardKind::Registration, Ok(500)), ActionOutcome::Completed("id"));
}

#[test]
fn settle_adds_reason_and_note_when_the_reward_failed() {
    let kinds = [
        (RewardKind::Registration, "User created but token initialization failed: "),
        (RewardKind::DailyEngagement, "Daily engagement recorded but token reward failed: "),
        (RewardKind::ReportSubmission, "Report submitted but token reward failed: "),
        (RewardKind::CommunityPost, "Community post recorded but token reward failed: "),
    ];
    let reasons = [
        LedgerError::NotFound,
        LedgerError::AlreadyInitialized,
        LedgerError::InsufficientFunds,
        LedgerError::InvalidAmount,
        LedgerError::Overflow,
    ];
    for (kind, prefix) in kinds {
        for reason in reasons {
            assert_eq!(
                settle(3u64, kind, Err(reason)),
                ActionOutcome::PartialFailure {
                    result: 3,
                    reason,
                    note: format!("{}{}", prefix, reason.message()),
                }
            );
        }
    }
}
