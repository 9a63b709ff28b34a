use credit_score::addr::{addr_validate, Addr};
use credit_score::contract::{
    calculate_score, execute, instantiate, query, query_user_score, update_assets_held,
    update_liquidity, update_protocol_usage, update_transaction_count,
};
use credit_score::error::ContractError;
use credit_score::msg::{ExecuteMsg, InstantiateMsg, MessageInfo, QueryMsg, UserScoreResponse};
use credit_score::state::{ContractState, UserMetrics};

fn addr(s: &str) -> Addr {
    addr_validate(s).unwrap()
}

fn admin_info() -> MessageInfo {
    MessageInfo { sender: addr("admin1") }
}

fn instantiated(base_score: u64) -> ContractState {
    let mut state = ContractState::new();
    let msg = InstantiateMsg { admin: "admin1".to_string(), base_score };
    instantiate(&mut state, msg).unwrap();
    state
}

#[test]
fn instantiate_persists_config_and_acknowledges() {
    let mut state = ContractState::new();
    let msg = InstantiateMsg { admin: "admin1".to_string(), base_score: 7 };
    let resp = instantiate(&mut state, msg).unwrap();
    assert_eq!(resp.attributes.len(), 1);
    assert_eq!(resp.attributes[0].key, "method");
    assert_eq!(resp.attributes[0].value, "instantiate");
}

#[test]
fn instantiate_malformed_admin_fails_invalid_address() {
    let mut state = ContractState::new();
    let msg = InstantiateMsg { admin: "Not An Address!".to_string(), base_score: 7 };
    let err = instantiate(&mut state, msg).unwrap_err();
    assert_eq!(err, ContractError::InvalidAddress);
    // No config record was produced: a field update still finds none.
    let r = update_liquidity(&mut state, admin_info(), addr("alice"), 1);
    assert_eq!(r.unwrap_err(), ContractError::NotFound);
}

#[test]
fn instantiate_empty_admin_fails_invalid_address() {
    let mut state = ContractState::new();
    let msg = InstantiateMsg { admin: String::new(), base_score: 0 };
    assert_eq!(instantiate(&mut state, msg).unwrap_err(), ContractError::InvalidAddress);
}

#[test]
fn instantiate_overlong_admin_fails_invalid_address() {
    let mut state = ContractState::new();
    let long = "a".repeat(91);
    let msg = InstantiateMsg { admin: long, base_score: 0 };
    assert_eq!(instantiate(&mut state, msg).unwrap_err(), ContractError::InvalidAddress);
    let mut state = ContractState::new();
    let longest = "a".repeat(90);
    let msg = InstantiateMsg { admin: longest, base_score: 0 };
    assert!(instantiate(&mut state, msg).is_ok());
}

#[test]
fn query_unknown_user_fails_not_found() {
    let state = instantiated(100);
    let r = query_user_score(&state, &addr("nobody"));
    assert_eq!(r.unwrap_err(), ContractError::NotFound);
    let r = query(&state, QueryMsg::GetScore { user: addr("nobody") });
    assert_eq!(r.unwrap_err(), ContractError::NotFound);
}

#[test]
fn non_admin_update_rejected_and_store_unchanged() {
    let mut state = instantiated(100);
    let alice = addr("alice");
    update_liquidity(&mut state, admin_info(), alice.clone(), 11).unwrap();
    let before = query_user_score(&state, &alice).unwrap();

    let intruder = MessageInfo { sender: addr("mallory") };
    let r = update_liquidity(&mut state, intruder, alice.clone(), 999);
    assert_eq!(r.unwrap_err(), ContractError::Unauthorized);
    let intruder = MessageInfo { sender: addr("mallory") };
    let r = update_transaction_count(&mut state, intruder, alice.clone(), 999);
    assert_eq!(r.unwrap_err(), ContractError::Unauthorized);
    let intruder = MessageInfo { sender: addr("mallory") };
    let r = update_assets_held(&mut state, intruder, alice.clone(), 999);
    assert_eq!(r.unwrap_err(), ContractError::Unauthorized);
    let intruder = MessageInfo { sender: addr("mallory") };
    let r = update_protocol_usage(&mut state, intruder, alice.clone(), 999);
    assert_eq!(r.unwrap_err(), ContractError::Unauthorized);

    let after = query_user_score(&state, &alice).unwrap();
    assert_eq!(before, after);
}

#[test]
fn admin_update_reflected_and_other_fields_untouched() {
    let mut state = instantiated(100);
    let alice = addr("alice");
    update_liquidity(&mut state, admin_info(), alice.clone(), 5000).unwrap();
    update_transaction_count(&mut state, admin_info(), alice.clone(), 10).unwrap();

    let before = query_user_score(&state, &alice).unwrap();
    assert_eq!(before.liquidity, 5000);
    assert_eq!(before.transaction_count, 10);

    update_assets_held(&mut state, admin_info(), alice.clone(), 3000).unwrap();
    let after = query_user_score(&state, &alice).unwrap();
    assert_eq!(after.assets_held, 3000);
    assert_eq!(after.liquidity, before.liquidity);
    assert_eq!(after.transaction_count, before.transaction_count);
    assert_eq!(after.protocol_usage_count, before.protocol_usage_count);
    assert_eq!(after.credit_score, before.credit_score);
}

#[test]
fn update_creates_record_with_zero_defaults() {
    let mut state = instantiated(100);
    let bob = addr("bob");
    update_protocol_usage(&mut state, admin_info(), bob.clone(), 4).unwrap();
    let m = query_user_score(&state, &bob).unwrap();
    assert_eq!(
        m,
        UserMetrics {
            liquidity: 0,
            transaction_count: 0,
            assets_held: 0,
            protocol_usage_count: 4,
            credit_score: 0,
        }
    );
}

#[test]
fn update_liquidity_is_idempotent() {
    let mut state = instantiated(100);
    let alice = addr("alice");
    update_liquidity(&mut state, admin_info(), alice.clone(), 42).unwrap();
    let once = query_user_score(&state, &alice).unwrap();
    update_liquidity(&mut state, admin_info(), alice.clone(), 42).unwrap();
    let twice = query_user_score(&state, &alice).unwrap();
    assert_eq!(once, twice);
    assert_eq!(twice.liquidity, 42);
}

#[test]
fn update_overwrites_without_accumulation() {
    let mut state = instantiated(100);
    let alice = addr("alice");
    update_liquidity(&mut state, admin_info(), alice.clone(), 42).unwrap();
    update_liquidity(&mut state, admin_info(), alice.clone(), 7).unwrap();
    assert_eq!(query_user_score(&state, &alice).unwrap().liquidity, 7);
}

#[test]
fn score_formula_exact_value() {
    let mut state = instantiated(100);
    let alice = addr("alice");
    update_liquidity(&mut state, admin_info(), alice.clone(), 5000).unwrap();
    update_assets_held(&mut state, admin_info(), alice.clone(), 3000).unwrap();
    update_transaction_count(&mut state, admin_info(), alice.clone(), 10).unwrap();
    update_protocol_usage(&mut state, admin_info(), alice.clone(), 2).unwrap();

    let resp = calculate_score(&mut state, alice.clone()).unwrap();
    assert_eq!(resp.attributes[0].key, "method");
    assert_eq!(resp.attributes[0].value, "calculate_score");
    assert_eq!(resp.attributes[1].key, "user");
    assert_eq!(resp.attributes[1].value, "alice");
    assert_eq!(resp.attributes[2].key, "score");
    assert_eq!(resp.attributes[2].value, "120");

    let m = query_user_score(&state, &alice).unwrap();
    assert_eq!(m.credit_score, 100 + 5 + 3 + 10 + 2);
    // Recomputing the score touches no other field.
    assert_eq!(m.liquidity, 5000);
    assert_eq!(m.assets_held, 3000);
    assert_eq!(m.transaction_count, 10);
    assert_eq!(m.protocol_usage_count, 2);
}

#[test]
fn score_divisions_round_down() {
    let mut state = instantiated(0);
    let alice = addr("alice");
    update_liquidity(&mut state, admin_info(), alice.clone(), 1999).unwrap();
    update_assets_held(&mut state, admin_info(), alice.clone(), 999).unwrap();
    calculate_score(&mut state, alice.clone()).unwrap();
    assert_eq!(query_user_score(&state, &alice).unwrap().credit_score, 1);
}

#[test]
fn calculate_score_fresh_user_yields_base_score() {
    let mut state = instantiated(100);
    let carol = addr("carol");
    calculate_score(&mut state, carol.clone()).unwrap();
    let m = query_user_score(&state, &carol).unwrap();
    assert_eq!(
        m,
        UserMetrics {
            liquidity: 0,
            transaction_count: 0,
            assets_held: 0,
            protocol_usage_count: 0,
            credit_score: 100,
        }
    );
}

#[test]
fn calculate_score_needs_no_authorization() {
    let mut state = instantiated(50);
    let alice = addr("alice");
    update_transaction_count(&mut state, admin_info(), alice.clone(), 3).unwrap();
    // Dispatched through execute with a non-admin sender: still succeeds.
    let anyone = MessageInfo { sender: addr("mallory") };
    execute(&mut state, anyone, ExecuteMsg::CalculateScore { user: alice.clone() }).unwrap();
    assert_eq!(query_user_score(&state, &alice).unwrap().credit_score, 53);
}

#[test]
fn calculate_score_overflow_is_rejected_and_state_kept() {
    let mut state = instantiated(u64::MAX);
    let alice = addr("alice");
    update_transaction_count(&mut state, admin_info(), alice.clone(), 1).unwrap();
    let before = query_user_score(&state, &alice).unwrap();
    let r = calculate_score(&mut state, alice.clone());
    assert_eq!(r.unwrap_err(), ContractError::ArithmeticOverflow);
    assert_eq!(query_user_score(&state, &alice).unwrap(), before);
}

#[test]
fn calculate_score_huge_liquidity_overflows() {
    let mut state = instantiated(0);
    let alice = addr("alice");
    update_liquidity(&mut state, admin_info(), alice.clone(), u128::MAX).unwrap();
    let r = calculate_score(&mut state, alice.clone());
    assert_eq!(r.unwrap_err(), ContractError::ArithmeticOverflow);
}

#[test]
fn calculate_score_at_exact_limit_succeeds() {
    let mut state = instantiated(u64::MAX - 1);
    let alice = addr("alice");
    update_protocol_usage(&mut state, admin_info(), alice.clone(), 1).unwrap();
    calculate_score(&mut state, alice.clone()).unwrap();
    assert_eq!(query_user_score(&state, &alice).unwrap().credit_score, u64::MAX);
}

#[test]
fn execute_dispatches_each_update_tag() {
    let mut state = instantiated(0);
    let dave = addr("dave");
    execute(
        &mut state,
        admin_info(),
        ExecuteMsg::UpdateLiquidity { user: dave.clone(), liquidity: 1 },
    )
    .unwrap();
    execute(
        &mut state,
        admin_info(),
        ExecuteMsg::UpdateTransactionCount { user: dave.clone(), transaction_count: 2 },
    )
    .unwrap();
    execute(
        &mut state,
        admin_info(),
        ExecuteMsg::UpdateAssetsHeld { user: dave.clone(), assets_held: 3 },
    )
    .unwrap();
    execute(
        &mut state,
        admin_info(),
        ExecuteMsg::UpdateProtocolUsage { user: dave.clone(), protocol_usage_count: 4 },
    )
    .unwrap();
    let m = query_user_score(&state, &dave).unwrap();
    assert_eq!(
        m,
        UserMetrics {
            liquidity: 1,
            transaction_count: 2,
            assets_held: 3,
            protocol_usage_count: 4,
            credit_score: 0,
        }
    );
}

#[test]
fn updates_keep_one_record_per_user() {
    let mut state = instantiated(0);
    let alice = addr("alice");
    let bob = addr("bob");
    update_liquidity(&mut state, admin_info(), alice.clone(), 1).unwrap();
    update_liquidity(&mut state, admin_info(), bob.clone(), 2).unwrap();
    update_liquidity(&mut state, admin_info(), alice.clone(), 3).unwrap();
    assert_eq!(query_user_score(&state, &alice).unwrap().liquidity, 3);
    assert_eq!(query_user_score(&state, &bob).unwrap().liquidity, 2);
}

#[test]
fn update_responses_carry_operation_user_and_value() {
    let mut state = instantiated(0);
    let alice = addr("alice");
    let resp = update_liquidity(&mut state, admin_info(), alice.clone(), 12345).unwrap();
    let pairs: Vec<(&str, &str)> = resp
        .attributes
        .iter()
        .map(|a| (a.key.as_str(), a.value.as_str()))
        .collect();
    assert_eq!(
        pairs,
        vec![("method", "update_liquidity"), ("user", "alice"), ("liquidity", "12345")]
    );
    let resp = update_transaction_count(&mut state, admin_info(), alice.clone(), 0).unwrap();
    assert_eq!(resp.attributes[0].value, "update_transaction_count");
    assert_eq!(resp.attributes[2].value, "0");
    let resp = update_assets_held(&mut state, admin_info(), alice.clone(), u128::MAX).unwrap();
    assert_eq!(resp.attributes[0].value, "update_assets_held");
    assert_eq!(resp.attributes[2].value, "340282366920938463463374607431768211455");
    let resp = update_protocol_usage(&mut state, admin_info(), alice.clone(), u64::MAX).unwrap();
    assert_eq!(resp.attributes[0].value, "update_protocol_usage");
    assert_eq!(resp.attributes[2].value, "18446744073709551615");
}

#[test]
fn user_score_response_mirrors_record() {
    let alice = addr("alice");
    let m = UserMetrics {
        liquidity: 9,
        transaction_count: 8,
        assets_held: 7,
        protocol_usage_count: 6,
        credit_score: 5,
    };
    let r = UserScoreResponse::new(alice.clone(), &m);
    assert_eq!(r.user, alice);
    assert_eq!(r.liquidity, 9);
    assert_eq!(r.transaction_count, 8);
    assert_eq!(r.assets_held, 7);
    assert_eq!(r.protocol_usage_count, 6);
    assert_eq!(r.score, 5);
}
