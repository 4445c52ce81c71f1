use candid::Principal;
use kintaraa_backend::token_system::{
    COMMUNITY_POST_REWARD, DAILY_ENGAGEMENT_REWARD, INITIAL_TOKEN_AMOUNT,
    REPORT_SUBMISSION_REWARD,
};
use kintaraa_backend::{
    earn_tokens, get_token_balance, get_transaction_history, initialize_user_tokens,
    reward_community_post, reward_daily_engagement, reward_report_submission, spend_tokens,
    Ledger, LedgerError, TokenBalance, TokenTransaction,
};

fn alice() -> Principal {
    Principal::from_slice(&[1, 2, 3])
}

fn bob() -> Principal {
    Principal::from_slice(&[1, 2, 4])
}

fn signed_sum(history: &[TokenTransaction]) -> i128 {
    history.iter().map(|t| t.amount as i128).sum()
}

#[test]
fn reward_constants_have_their_configured_values() {
    assert_eq!(INITIAL_TOKEN_AMOUNT, 500);
    assert_eq!(DAILY_ENGAGEMENT_REWARD, 10);
    assert_eq!(REPORT_SUBMISSION_REWARD, 50);
    assert_eq!(COMMUNITY_POST_REWARD, 5);
}

#[test]
fn a_new_ledger_knows_nobody() {
    let ledger = Ledger::new();
    assert_eq!(get_token_balance(&ledger, alice()), Err(LedgerError::NotFound));
    assert!(get_transaction_history(&ledger, alice()).is_empty());
}

#[test]
fn initialize_grants_the_initial_amount_and_records_it() {
    let mut ledger = Ledger::new();
    assert_eq!(initialize_user_tokens(&mut ledger, alice(), 1_000), Ok(500));
    assert_eq!(
        get_token_balance(&ledger, alice()),
        Ok(TokenBalance { balance: 500, last_updated: 1_000, total_earned: 500, total_spent: 0 })
    );
    let history = get_transaction_history(&ledger, alice());
    assert_eq!(
        history,
        vec![TokenTransaction {
            id: 0,
            user: alice(),
            amount: 500,
            description: "Initial token grant".to_string(),
            timestamp: 1_000,
            service_type: None,
        }]
    );
}

#[test]
fn a_second_initialize_fails_and_changes_nothing() {
    let mut ledger = Ledger::new();
    assert_eq!(initialize_user_tokens(&mut ledger, alice(), 1), Ok(500));
    let balance = get_token_balance(&ledger, alice());
    let history = get_transaction_history(&ledger, alice());
    assert_eq!(
        initialize_user_tokens(&mut ledger, alice(), 2),
        Err(LedgerError::AlreadyInitialized)
    );
    assert_eq!(get_token_balance(&ledger, alice()), balance);
    assert_eq!(get_transaction_history(&ledger, alice()), history);
    assert_eq!(history.len(), 1);
}

#[test]
fn racing_initializations_leave_one_balance_and_one_grant() {
    let mut first_wins = Ledger::new();
    let a = initialize_user_tokens(&mut first_wins, alice(), 10);
    let b = initialize_user_tokens(&mut first_wins, alice(), 20);
    assert_eq!((a, b), (Ok(500), Err(LedgerError::AlreadyInitialized)));
    assert_eq!(get_token_balance(&first_wins, alice()).unwrap().last_updated, 10);
    assert_eq!(get_transaction_history(&first_wins, alice()).len(), 1);

    let mut second_wins = Ledger::new();
    let b = initialize_user_tokens(&mut second_wins, alice(), 20);
    let a = initialize_user_tokens(&mut second_wins, alice(), 10);
    assert_eq!((a, b), (Err(LedgerError::AlreadyInitialized), Ok(500)));
    assert_eq!(get_token_balance(&second_wins, alice()).unwrap().last_updated, 20);
    assert_eq!(get_transaction_history(&second_wins, alice()).len(), 1);
    assert_eq!(get_token_balance(&second_wins, alice()).unwrap().balance, 500);
}

#[test]
fn earn_credits_the_amount_and_records_it() {
    let mut ledger = Ledger::new();
    initialize_user_tokens(&mut ledger, alice(), 1).unwrap();
    assert_eq!(earn_tokens(&mut ledger, alice(), 25, "bonus".to_string(), 2), Ok(525));
    assert_eq!(
        get_token_balance(&ledger, alice()),
        Ok(TokenBalance { balance: 525, last_updated: 2, total_earned: 525, total_spent: 0 })
    );
    let history = get_transaction_history(&ledger, alice());
    assert_eq!(history.len(), 2);
    assert_eq!(
        history[1],
        TokenTransaction {
            id: 1,
            user: alice(),
            amount: 25,
            description: "bonus".to_string(),
            timestamp: 2,
            service_type: None,
        }
    );
}

#[test]
fn earn_for_an_unknown_identity_fails_with_not_found() {
    let mut ledger = Ledger::new();
    initialize_user_tokens(&mut ledger, alice(), 1).unwrap();
    assert_eq!(
        earn_tokens(&mut ledger, bob(), 25, "bonus".to_string(), 2),
        Err(LedgerError::NotFound)
    );
    assert_eq!(get_token_balance(&ledger, bob()), Err(LedgerError::NotFound));
    assert!(get_transaction_history(&ledger, bob()).is_empty());
    assert_eq!(get_transaction_history(&ledger, alice()).len(), 1);
}

#[test]
fn spend_debits_the_amount_and_records_it_negated() {
    let mut ledger = Ledger::new();
    initialize_user_tokens(&mut ledger, alice(), 1).unwrap();
    assert_eq!(
        spend_tokens(
            &mut ledger,
            alice(),
            120,
            "legal advice".to_string(),
            Some("Legal".to_string()),
            3
        ),
        Ok(380)
    );
    assert_eq!(
        get_token_balance(&ledger, alice()),
        Ok(TokenBalance { balance: 380, last_updated: 3, total_earned: 500, total_spent: 120 })
    );
    let history = get_transaction_history(&ledger, alice());
    assert_eq!(
        history[1],
        TokenTransaction {
            id: 1,
            user: alice(),
            amount: -120,
            description: "legal advice".to_string(),
            timestamp: 3,
            service_type: Some("Legal".to_string()),
        }
    );
}

#[test]
fn spend_of_the_whole_balance_is_allowed() {
    let mut ledger = Ledger::new();
    initialize_user_tokens(&mut ledger, alice(), 1).unwrap();
    assert_eq!(spend_tokens(&mut ledger, alice(), 500, "all".to_string(), None, 2), Ok(0));
    assert_eq!(
        spend_tokens(&mut ledger, alice(), 1, "more".to_string(), None, 3),
        Err(LedgerError::InsufficientFunds)
    );
}

#[test]
fn overspending_fails_and_leaves_the_ledger_unchanged() {
    let mut ledger = Ledger::new();
    initialize_user_tokens(&mut ledger, alice(), 1).unwrap();
    let count = get_transaction_history(&ledger, alice()).len();
    assert_eq!(
        spend_tokens(&mut ledger, alice(), 600, "too much".to_string(), None, 2),
        Err(LedgerError::InsufficientFunds)
    );
    assert_eq!(
        get_token_balance(&ledger, alice()),
        Ok(TokenBalance { balance: 500, last_updated: 1, total_earned: 500, total_spent: 0 })
    );
    assert_eq!(get_transaction_history(&ledger, alice()).len(), count);
}

#[test]
fn spend_for_an_unknown_identity_fails_with_not_found() {
    let mut ledger = Ledger::new();
    assert_eq!(
        spend_tokens(&mut ledger, alice(), 1, "x".to_string(), None, 2),
        Err(LedgerError::NotFound)
    );
}

#[test]
fn a_zero_amount_is_rejected_without_any_change() {
    let mut ledger = Ledger::new();
    initialize_user_tokens(&mut ledger, alice(), 1).unwrap();
    assert_eq!(
        earn_tokens(&mut ledger, alice(), 0, "nothing".to_string(), 2),
        Err(LedgerError::InvalidAmount)
    );
    assert_eq!(
        spend_tokens(&mut ledger, alice(), 0, "nothing".to_string(), None, 3),
        Err(LedgerError::InvalidAmount)
    );
    assert_eq!(
        get_token_balance(&ledger, alice()),
        Ok(TokenBalance { balance: 500, last_updated: 1, total_earned: 500, total_spent: 0 })
    );
    assert_eq!(get_transaction_history(&ledger, alice()).len(), 1);
}

#[test]
fn an_amount_that_is_negative_as_a_signed_number_is_rejected() {
    let mut ledger = Ledger::new();
    initialize_user_tokens(&mut ledger, alice(), 1).unwrap();
    let negative_one = (-1i64) as u64;
    let just_too_large = i64::MAX as u64 + 1;
    for amount in [negative_one, just_too_large] {
        assert_eq!(
            earn_tokens(&mut ledger, alice(), amount, "x".to_string(), 2),
            Err(LedgerError::Overflow)
        );
        assert_eq!(
            spend_tokens(&mut ledger, alice(), amount, "x".to_string(), None, 2),
            Err(LedgerError::InsufficientFunds)
        );
        assert_eq!(
            earn_tokens(&mut ledger, bob(), amount, "x".to_string(), 2),
            Err(LedgerError::NotFound)
        );
    }
    assert_eq!(
        get_token_balance(&ledger, alice()),
        Ok(TokenBalance { balance: 500, last_updated: 1, total_earned: 500, total_spent: 0 })
    );
    assert_eq!(get_transaction_history(&ledger, alice()).len(), 1);
}

#[test]
fn a_spend_that_no_transaction_can_hold_fails_with_overflow() {
    let mut ledger = Ledger::new();
    initialize_user_tokens(&mut ledger, alice(), 1).unwrap();
    earn_tokens(&mut ledger, alice(), i64::MAX as u64, "big".to_string(), 2).unwrap();
    let before = get_token_balance(&ledger, alice());
    assert_eq!(before.unwrap().balance, (1u64 << 63) + 499);
    assert_eq!(
        spend_tokens(&mut ledger, alice(), 1u64 << 63, "x".to_string(), None, 3),
        Err(LedgerError::Overflow)
    );
    assert_eq!(get_token_balance(&ledger, alice()), before);
    assert_eq!(get_transaction_history(&ledger, alice()).len(), 2);
}

#[test]
fn an_unknown_identity_is_not_found_whatever_the_amount() {
    let mut ledger = Ledger::new();
    initialize_user_tokens(&mut ledger, alice(), 1).unwrap();
    for amount in [0, 1, 500, i64::MAX as u64, i64::MAX as u64 + 1, u64::MAX] {
        assert_eq!(
            earn_tokens(&mut ledger, bob(), amount, "x".to_string(), 2),
            Err(LedgerError::NotFound)
        );
        assert_eq!(
            spend_tokens(&mut ledger, bob(), amount, "x".to_string(), None, 2),
            Err(LedgerError::NotFound)
        );
    }
    // No balance record was created for bob, and nothing was recorded.
    assert_eq!(get_token_balance(&ledger, bob()), Err(LedgerError::NotFound));
    assert!(get_transaction_history(&ledger, bob()).is_empty());
    assert_eq!(initialize_user_tokens(&mut ledger, bob(), 3), Ok(500));
    assert_eq!(get_transaction_history(&ledger, bob())[0].id, 1);
}

#[test]
fn the_largest_signed_amount_can_be_earned_and_spent() {
    let mut ledger = Ledger::new();
    initialize_user_tokens(&mut ledger, alice(), 1).unwrap();
    let largest = i64::MAX as u64;
    assert_eq!(earn_tokens(&mut ledger, alice(), largest, "big".to_string(), 2), Ok(largest + 500));
    assert_eq!(spend_tokens(&mut ledger, alice(), largest, "big".to_string(), None, 3), Ok(500));
    let history = get_transaction_history(&ledger, alice());
    assert_eq!(history[1].amount, i64::MAX);
    assert_eq!(history[2].amount, -i64::MAX);
    assert_eq!(signed_sum(&history), 500);
}

#[test]
fn earning_past_the_range_of_the_totals_fails_with_overflow() {
    let mut ledger = Ledger::new();
    initialize_user_tokens(&mut ledger, alice(), 1).unwrap();
    let largest = i64::MAX as u64;
    earn_tokens(&mut ledger, alice(), largest, "one".to_string(), 2).unwrap();
    // 500 + (2^63 - 1) + (2^63 - 1) = 2^64 + 498 does not fit, also after a spend,
    // because the lifetime earnings do not shrink.
    spend_tokens(&mut ledger, alice(), largest, "back".to_string(), None, 3).unwrap();
    let before = get_token_balance(&ledger, alice());
    assert_eq!(
        earn_tokens(&mut ledger, alice(), largest, "two".to_string(), 4),
        Err(LedgerError::Overflow)
    );
    assert_eq!(get_token_balance(&ledger, alice()), before);
    assert_eq!(get_transaction_history(&ledger, alice()).len(), 3);
    // The largest credit that still fits is accepted.
    let room = u64::MAX - before.unwrap().total_earned;
    assert_eq!(earn_tokens(&mut ledger, alice(), room, "fill".to_string(), 5), Ok(500 + room));
    assert_eq!(get_token_balance(&ledger, alice()).unwrap().total_earned, u64::MAX);
    assert_eq!(
        earn_tokens(&mut ledger, alice(), 1, "over".to_string(), 6),
        Err(LedgerError::Overflow)
    );
}

#[test]
fn balance_is_earned_minus_spent_after_every_operation() {
    let mut ledger = Ledger::new();
    initialize_user_tokens(&mut ledger, alice(), 0).unwrap();
    let steps: [(bool, u64); 8] = [
        (true, 40),
        (false, 500),
        (false, 41),
        (true, 0),
        (false, 40),
        (true, 7),
        (false, 8),
        (true, 1_000_000),
    ];
    for (i, (earn, amount)) in steps.iter().enumerate() {
        let now = i as u64 + 1;
        if *earn {
            let _ = earn_tokens(&mut ledger, alice(), *amount, "earn".to_string(), now);
        } else {
            let _ = spend_tokens(&mut ledger, alice(), *amount, "spend".to_string(), None, now);
        }
        let record = get_token_balance(&ledger, alice()).unwrap();
        assert_eq!(record.balance, record.total_earned - record.total_spent);
    }
    assert_eq!(
        get_token_balance(&ledger, alice()),
        Ok(TokenBalance {
            balance: 1_000_007,
            last_updated: 8,
            total_earned: 1_000_547,
            total_spent: 540
        })
    );
}

#[test]
fn replaying_the_history_reproduces_the_balance() {
    let mut ledger = Ledger::new();
    initialize_user_tokens(&mut ledger, alice(), 0).unwrap();
    initialize_user_tokens(&mut ledger, bob(), 0).unwrap();
    earn_tokens(&mut ledger, alice(), 30, "a".to_string(), 1).unwrap();
    spend_tokens(&mut ledger, bob(), 200, "b".to_string(), None, 2).unwrap();
    spend_tokens(&mut ledger, alice(), 75, "c".to_string(), None, 3).unwrap();
    reward_daily_engagement(&mut ledger, bob(), 4).unwrap();
    for user in [alice(), bob()] {
        let record = get_token_balance(&ledger, user).unwrap();
        let history = get_transaction_history(&ledger, user);
        assert_eq!(signed_sum(&history), record.balance as i128);
        let credits: i128 = history.iter().filter(|t| t.amount > 0).map(|t| t.amount as i128).sum();
        let debits: i128 = history.iter().filter(|t| t.amount < 0).map(|t| -(t.amount as i128)).sum();
        assert_eq!(credits, record.total_earned as i128);
        assert_eq!(debits, record.total_spent as i128);
        assert_eq!(history.last().unwrap().timestamp, record.last_updated);
    }
    assert_eq!(get_token_balance(&ledger, alice()).unwrap().balance, 455);
    assert_eq!(get_token_balance(&ledger, bob()).unwrap().balance, 310);
}

#[test]
fn history_holds_only_the_transactions_of_its_identity_in_order() {
    let mut ledger = Ledger::new();
    initialize_user_tokens(&mut ledger, alice(), 0).unwrap();
    initialize_user_tokens(&mut ledger, bob(), 1).unwrap();
    earn_tokens(&mut ledger, alice(), 1, "a".to_string(), 2).unwrap();
    earn_tokens(&mut ledger, bob(), 2, "b".to_string(), 3).unwrap();
    earn_tokens(&mut ledger, alice(), 3, "c".to_string(), 4).unwrap();
    let of_alice = get_transaction_history(&ledger, alice());
    let of_bob = get_transaction_history(&ledger, bob());
    assert_eq!(of_alice.iter().map(|t| t.id).collect::<Vec<u64>>(), vec![0, 2, 4]);
    assert_eq!(of_bob.iter().map(|t| t.id).collect::<Vec<u64>>(), vec![1, 3]);
    assert!(of_alice.iter().all(|t| t.user == alice()));
    assert!(of_bob.iter().all(|t| t.user == bob()));
    assert_eq!(of_alice.iter().map(|t| t.amount).collect::<Vec<i64>>(), vec![500, 1, 3]);
}

#[test]
fn transaction_ids_are_unique_and_increase_across_identities() {
    let mut ledger = Ledger::new();
    let users = [alice(), bob(), Principal::anonymous(), Principal::management_canister()];
    for (i, user) in users.iter().enumerate() {
        initialize_user_tokens(&mut ledger, *user, i as u64).unwrap();
    }
    for round in 0..5u64 {
        for user in users.iter() {
            earn_tokens(&mut ledger, *user, round + 1, "r".to_string(), 10 + round).unwrap();
        }
    }
    let mut all: Vec<TokenTransaction> = Vec::new();
    for user in users.iter() {
        all.extend(get_transaction_history(&ledger, *user));
    }
    all.sort_by_key(|t| t.id);
    assert_eq!(all.len(), 24);
    for (i, t) in all.iter().enumerate() {
        assert_eq!(t.id, i as u64);
    }
    for pair in all.windows(2) {
        assert!(pair[0].timestamp <= pair[1].timestamp);
    }
}

#[test]
fn failed_operations_take_no_transaction_id() {
    let mut ledger = Ledger::new();
    initialize_user_tokens(&mut ledger, alice(), 0).unwrap();
    let _ = spend_tokens(&mut ledger, alice(), 501, "x".to_string(), None, 1);
    let _ = earn_tokens(&mut ledger, bob(), 5, "x".to_string(), 2);
    let _ = initialize_user_tokens(&mut ledger, alice(), 3);
    let _ = earn_tokens(&mut ledger, alice(), 0, "x".to_string(), 4);
    earn_tokens(&mut ledger, alice(), 5, "x".to_string(), 5).unwrap();
    let history = get_transaction_history(&ledger, alice());
    assert_eq!(history.len(), 2);
    assert_eq!(history[1].id, 1);
}

#[test]
fn identities_are_told_apart_by_their_bytes() {
    let mut ledger = Ledger::new();
    let short = Principal::from_slice(&[7]);
    let padded = Principal::from_slice(&[7, 0]);
    initialize_user_tokens(&mut ledger, short, 0).unwrap();
    assert_eq!(get_token_balance(&ledger, padded), Err(LedgerError::NotFound));
    assert_eq!(initialize_user_tokens(&mut ledger, padded, 1), Ok(500));
    assert_eq!(
        initialize_user_tokens(&mut ledger, Principal::from_slice(&[7]), 2),
        Err(LedgerError::AlreadyInitialized)
    );
    earn_tokens(&mut ledger, padded, 9, "x".to_string(), 3).unwrap();
    assert_eq!(get_token_balance(&ledger, short).unwrap().balance, 500);
    assert_eq!(get_token_balance(&ledger, padded).unwrap().balance, 509);
    assert_eq!(get_transaction_history(&ledger, short).len(), 1);
    assert_eq!(get_transaction_history(&ledger, padded).len(), 2);
}

#[test]
fn the_longest_identities_are_told_apart_by_their_last_byte() {
    let mut ledger = Ledger::new();
    let mut bytes = [255u8; 29];
    let one = Principal::from_slice(&bytes);
    bytes[28] = 254;
    let other = Principal::from_slice(&bytes);
    initialize_user_tokens(&mut ledger, one, 0).unwrap();
    assert_eq!(get_token_balance(&ledger, other), Err(LedgerError::NotFound));
    assert_eq!(
        spend_tokens(&mut ledger, other, 1, "x".to_string(), None, 1),
        Err(LedgerError::NotFound)
    );
    assert_eq!(spend_tokens(&mut ledger, one, 1, "x".to_string(), None, 1), Ok(499));
    assert!(get_transaction_history(&ledger, other).is_empty());
    assert_eq!(get_transaction_history(&ledger, one).len(), 2);
}

#[test]
fn daily_engagement_reward_credits_ten() {
    let mut ledger = Ledger::new();
    initialize_user_tokens(&mut ledger, alice(), 0).unwrap();
    assert_eq!(reward_daily_engagement(&mut ledger, alice(), 1), Ok(510));
    let history = get_transaction_history(&ledger, alice());
    assert_eq!(history[1].amount, 10);
    assert_eq!(history[1].description, "Daily engagement reward");
    assert_eq!(history[1].service_type, None);
}

#[test]
fn report_submission_reward_credits_fifty() {
    let mut ledger = Ledger::new();
    initialize_user_tokens(&mut ledger, alice(), 0).unwrap();
    assert_eq!(reward_report_submission(&mut ledger, alice(), 1), Ok(550));
    let history = get_transaction_history(&ledger, alice());
    assert_eq!(history[1].amount, 50);
    assert_eq!(history[1].description, "Report submission reward");
}

#[test]
fn community_post_reward_credits_five() {
    let mut ledger = Ledger::new();
    initialize_user_tokens(&mut ledger, alice(), 0).unwrap();
    assert_eq!(reward_community_post(&mut ledger, alice(), 1), Ok(505));
    let history = get_transaction_history(&ledger, alice());
    assert_eq!(history[1].amount, 5);
    assert_eq!(history[1].description, "Community post reward");
}

#[test]
fn rewards_for_an_unknown_identity_fail_with_not_found() {
    let mut ledger = Ledger::new();
    assert_eq!(reward_daily_engagement(&mut ledger, alice(), 1), Err(LedgerError::NotFound));
    assert_eq!(reward_report_submission(&mut ledger, alice(), 1), Err(LedgerError::NotFound));
    assert_eq!(reward_community_post(&mut ledger, alice(), 1), Err(LedgerError::NotFound));
    assert!(get_transaction_history(&ledger, alice()).is_empty());
}

#[test]
fn ledger_error_messages() {
    assert_eq!(LedgerError::NotFound.message(), "User not found");
    assert_eq!(LedgerError::AlreadyInitialized.message(), "User already initialized");
    assert_eq!(LedgerError::InsufficientFunds.message(), "Insufficient tokens");
    assert_eq!(LedgerError::InvalidAmount.message(), "Amount must be positive");
    assert_eq!(LedgerError::Overflow.message(), "Token amount out of range");
}

#[test]
fn a_cloned_transaction_equals_its_source() {
    let transaction = TokenTransaction {
        id: 3,
        user: alice(),
        amount: -4,
        description: "d".to_string(),
        timestamp: 5,
        service_type: Some("Medical".to_string()),
    };
    assert_eq!(transaction.clone(), transaction);
}
