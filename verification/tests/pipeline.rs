use ref_exchange::action::{Action, AmlOperation, PoolReply, PoolRequest, SwapAction};
use ref_exchange::contract::Contract;
use ref_exchange::error::PipelineError;
use ref_exchange::gas::{AML_CHECK_GAS, MIN_FT_EXECUTION_GAS, PROMISE_SCHEDULING_GAS};
use ref_exchange::message::{Admission, Settlement, TokenReceiverMessage};
use ref_exchange::state::PipelineState;

const TERA: u64 = 1_000_000_000_000;

fn t(name: &str) -> String {
    name.to_string()
}

fn exchange() -> Contract {
    Contract::new(t("aml.near"), 5)
}

fn swap_x_to_y(min_out: u128) -> Vec<Action> {
    vec![AmlOperation::Swap {
        actions: vec![SwapAction {
            pool_id: 0,
            token_in: t("x.near"),
            amount_in: None,
            token_out: t("y.near"),
            min_amount_out: min_out,
        }],
        referral_id: None,
    }]
}

fn execute(referral: Option<&str>, actions: Vec<Action>) -> Option<TokenReceiverMessage> {
    Some(TokenReceiverMessage::Execute { referral_id: referral.map(t), actions })
}

fn risk(score: u8) -> Option<(String, u8)> {
    Some((t("None"), score))
}

fn resume(score: u8, actions: Vec<Action>, replies: Vec<PoolReply>) -> Settlement {
    exchange().callback_instant_swap(
        risk(score),
        t("x.near"),
        t("alice.near"),
        100,
        None,
        actions,
        replies,
    )
}

#[test]
fn settings_are_kept() {
    let contract = exchange();
    assert_eq!(contract.aml_account_id(), "aml.near");
    assert_eq!(contract.risk_threshold(), 5);
}

#[test]
fn empty_message_is_a_plain_deposit() {
    let taken = exchange().ft_on_transfer(
        t("x.near"),
        t("alice.near"),
        100,
        &t(""),
        None,
        23,
        0,
        0,
    );
    match taken {
        Ok(Admission::Deposited { balance, unused }) => {
            assert_eq!(balance, 123);
            assert_eq!(unused, 0);
        },
        other => panic!("not a plain deposit: {:?}", other),
    }
}

#[test]
fn empty_message_is_a_plain_deposit_whatever_was_decoded() {
    let taken = exchange().ft_on_transfer(
        t("x.near"),
        t("alice.near"),
        1,
        &t(""),
        execute(None, swap_x_to_y(1)),
        u128::MAX - 1,
        300 * TERA,
        0,
    );
    match taken {
        Ok(Admission::Deposited { balance, unused }) => {
            assert_eq!(balance, u128::MAX);
            assert_eq!(unused, 0);
        },
        other => panic!("not a plain deposit: {:?}", other),
    }
}

#[test]
fn message_that_was_not_decoded_is_rejected() {
    let taken = exchange().ft_on_transfer(
        t("x.near"),
        t("alice.near"),
        100,
        &t("{\"actions\": 7}"),
        None,
        0,
        300 * TERA,
        0,
    );
    assert_eq!(taken.err(), Some(PipelineError::WrongMessageFormat));
}

#[test]
fn referrer_that_cannot_be_an_account_is_rejected() {
    for bad in ["A", "a", "Alice.near", "alice..near", ".alice", "alice-", "al ice", "é.near"] {
        let taken = exchange().ft_on_transfer(
            t("x.near"),
            t("alice.near"),
            100,
            &t("{}"),
            execute(Some(bad), swap_x_to_y(1)),
            0,
            300 * TERA,
            0,
        );
        assert_eq!(taken.err(), Some(PipelineError::WrongMessageFormat), "{}", bad);
    }
    let long: String = "a".repeat(65);
    let taken = exchange().ft_on_transfer(
        t("x.near"),
        t("alice.near"),
        100,
        &t("{}"),
        execute(Some(long.as_str()), swap_x_to_y(1)),
        0,
        300 * TERA,
        0,
    );
    assert_eq!(taken.err(), Some(PipelineError::WrongMessageFormat));
}

#[test]
fn referrer_that_can_be_an_account_is_carried() {
    let longest: String = "a".repeat(64);
    for good in ["aa", "ref.near", "a-b_c.d0", "100", longest.as_str()] {
        let taken = exchange().ft_on_transfer(
            t("x.near"),
            t("alice.near"),
            100,
            &t("{}"),
            execute(Some(good), swap_x_to_y(1)),
            0,
            300 * TERA,
            0,
        );
        match taken {
            Ok(Admission::Suspended(query)) => {
                assert_eq!(query.pending.referral_id, Some(t(good)))
            },
            other => panic!("not suspended for {}: {:?}", good, other),
        }
    }
}

#[test]
fn too_little_gas_is_rejected_and_a_retry_succeeds() {
    let needed = AML_CHECK_GAS + PROMISE_SCHEDULING_GAS + MIN_FT_EXECUTION_GAS + 7 * TERA;
    let contract = exchange();
    let short = contract.ft_on_transfer(
        t("x.near"),
        t("alice.near"),
        100,
        &t("{}"),
        execute(None, swap_x_to_y(1)),
        0,
        needed - 1,
        7 * TERA,
    );
    assert_eq!(short.err(), Some(PipelineError::InsufficientGas));
    let retried = contract.ft_on_transfer(
        t("x.near"),
        t("alice.near"),
        100,
        &t("{}"),
        execute(None, swap_x_to_y(1)),
        0,
        needed,
        7 * TERA,
    );
    match retried {
        Ok(Admission::Suspended(query)) => {
            assert_eq!(query.aml_account_id, "aml.near");
            assert_eq!(query.address, "alice.near");
            assert_eq!(query.query_gas, AML_CHECK_GAS);
            assert_eq!(query.callback_gas, MIN_FT_EXECUTION_GAS);
            assert_eq!(query.pending.token_in, "x.near");
            assert_eq!(query.pending.sender_id, "alice.near");
            assert_eq!(query.pending.amount, 100);
            assert_eq!(query.pending.referral_id, None);
            assert_eq!(query.pending.actions.len(), 1);
        },
        other => panic!("not suspended: {:?}", other),
    }
}

#[test]
fn malformed_message_is_reported_before_missing_gas() {
    let taken = exchange().ft_on_transfer(
        t("x.near"),
        t("alice.near"),
        100,
        &t("?"),
        None,
        0,
        0,
        0,
    );
    assert_eq!(taken.err(), Some(PipelineError::WrongMessageFormat));
}

#[test]
fn continuation_gets_the_gas_that_is_left() {
    let taken = exchange().ft_on_transfer(
        t("x.near"),
        t("alice.near"),
        100,
        &t("{}"),
        execute(None, vec![]),
        0,
        300 * TERA,
        20 * TERA,
    );
    match taken {
        Ok(Admission::Suspended(query)) => {
            assert_eq!(
                query.callback_gas,
                300 * TERA - 20 * TERA - AML_CHECK_GAS - PROMISE_SCHEDULING_GAS
            );
            assert!(query.pending.actions.is_empty());
        },
        other => panic!("not suspended: {:?}", other),
    }
}

#[test]
fn risk_is_judged_by_the_score_alone() {
    let contract = exchange();
    assert_eq!(contract.assert_risk(&(t("None"), 0)), Ok(()));
    assert_eq!(contract.assert_risk(&(t("Test"), 5)), Ok(()));
    assert_eq!(contract.assert_risk(&(t("None"), 6)), Err(PipelineError::RiskRejected));
    assert_eq!(contract.assert_risk(&(t("Test"), 255)), Err(PipelineError::RiskRejected));
}

#[test]
fn swap_with_low_risk_settles() {
    let contract = exchange();
    let first = contract.next_pool_request(
        &risk(2),
        &t("x.near"),
        100,
        &None,
        &swap_x_to_y(90),
        &vec![],
    );
    match first {
        Some(PoolRequest::Swap { pool_id, token_in, amount_in, token_out, min_amount_out, .. }) => {
            assert_eq!(pool_id, 0);
            assert_eq!(token_in, "x.near");
            assert_eq!(amount_in, 100);
            assert_eq!(token_out, "y.near");
            assert_eq!(min_amount_out, 90);
        },
        other => panic!("no request: {:?}", other),
    }
    let replies = vec![PoolReply::Swapped { amount_out: 95 }];
    assert!(contract
        .next_pool_request(&risk(2), &t("x.near"), 100, &None, &swap_x_to_y(90), &replies)
        .is_none());

    let outcome = resume(2, swap_x_to_y(90), replies);
    assert_eq!(outcome.state, PipelineState::Settled);
    assert_eq!(outcome.error, None);
    assert_eq!(outcome.returned, 0);
    assert_eq!(outcome.transfers.len(), 1);
    assert_eq!(outcome.transfers[0].token_id, "y.near");
    assert_eq!(outcome.transfers[0].receiver_id, "alice.near");
    assert_eq!(outcome.transfers[0].amount, 95);
}

#[test]
fn swap_with_high_risk_is_rejected_and_kept() {
    let contract = exchange();
    assert!(contract
        .next_pool_request(&risk(8), &t("x.near"), 100, &None, &swap_x_to_y(90), &vec![])
        .is_none());
    let outcome = resume(8, swap_x_to_y(90), vec![PoolReply::Swapped { amount_out: 95 }]);
    assert_eq!(outcome.state, PipelineState::RiskRejected);
    assert_eq!(outcome.error, Some(PipelineError::RiskRejected));
    assert!(outcome.transfers.is_empty());
    assert_eq!(outcome.returned, 0);
}

#[test]
fn swap_below_its_minimum_fails_and_is_kept() {
    let outcome = resume(1, swap_x_to_y(1_000), vec![PoolReply::Swapped { amount_out: 95 }]);
    assert_eq!(outcome.state, PipelineState::Failed);
    assert_eq!(outcome.error, Some(PipelineError::ActionPreconditionViolated));
    assert!(outcome.transfers.is_empty());
    assert_eq!(outcome.returned, 0);
}

#[test]
fn failed_plain_deposit_is_refunded_once() {
    let contract = exchange();
    match contract.handle_refund(false, t("alice.near"), 1_000) {
        Some(refund) => {
            assert_eq!(refund.receiver_id, "alice.near");
            assert_eq!(refund.amount, 1_000);
            assert_eq!(refund.reason, PipelineError::TransferFailed);
        },
        None => panic!("no refund"),
    }
    assert!(contract.handle_refund(true, t("alice.near"), 1_000).is_none());
}

#[test]
fn query_without_answer_fails_the_pipeline() {
    let outcome = exchange().callback_instant_swap(
        None,
        t("x.near"),
        t("alice.near"),
        100,
        None,
        swap_x_to_y(1),
        vec![PoolReply::Swapped { amount_out: 95 }],
    );
    assert_eq!(outcome.state, PipelineState::Failed);
    assert_eq!(outcome.error, Some(PipelineError::RiskQueryFailed));
    assert!(outcome.transfers.is_empty());
    assert!(exchange()
        .next_pool_request(&None, &t("x.near"), 100, &None, &swap_x_to_y(1), &vec![])
        .is_none());
}

#[test]
fn score_at_the_threshold_goes_through() {
    let outcome = resume(5, swap_x_to_y(1), vec![PoolReply::Swapped { amount_out: 95 }]);
    assert_eq!(outcome.state, PipelineState::Settled);
    let outcome = resume(6, swap_x_to_y(1), vec![PoolReply::Swapped { amount_out: 95 }]);
    assert_eq!(outcome.state, PipelineState::RiskRejected);
}

#[test]
fn deposit_without_operations_is_handed_back_as_it_is() {
    let outcome = resume(0, vec![], vec![]);
    assert_eq!(outcome.state, PipelineState::Settled);
    assert_eq!(outcome.transfers.len(), 1);
    assert_eq!(outcome.transfers[0].token_id, "x.near");
    assert_eq!(outcome.transfers[0].amount, 100);
}

#[test]
fn settlement_hands_out_every_positive_balance_and_nothing_else() {
    let actions = vec![AmlOperation::Swap {
        actions: vec![SwapAction {
            pool_id: 0,
            token_in: t("x.near"),
            amount_in: Some(60),
            token_out: t("y.near"),
            min_amount_out: 1,
        }],
        referral_id: None,
    }];
    let outcome = resume(0, actions, vec![PoolReply::Swapped { amount_out: 33 }]);
    assert_eq!(outcome.state, PipelineState::Settled);
    let handed: Vec<(String, u128)> = outcome
        .transfers
        .iter()
        .map(|transfer| (transfer.token_id.clone(), transfer.amount))
        .collect();
    assert_eq!(handed, vec![(t("x.near"), 40), (t("y.near"), 33)]);
    let sum: u128 = outcome.transfers.iter().map(|transfer| transfer.amount).sum();
    assert_eq!(sum, 73);
    assert!(outcome.transfers.iter().all(|transfer| transfer.receiver_id == "alice.near"));
}

#[test]
fn direct_actions_hand_out_what_the_run_leaves() {
    let contract = exchange();
    let out = contract.internal_direct_actions(
        t("x.near"),
        100,
        None,
        &swap_x_to_y(90),
        &vec![PoolReply::Swapped { amount_out: 95 }],
    );
    assert_eq!(out, Ok(vec![(t("y.near"), 95)]));
}

#[test]
fn direct_actions_hand_out_nothing_after_a_failure() {
    let contract = exchange();
    let out = contract.internal_direct_actions(
        t("x.near"),
        100,
        None,
        &swap_x_to_y(96),
        &vec![PoolReply::Swapped { amount_out: 95 }],
    );
    assert_eq!(out, Err(PipelineError::ActionPreconditionViolated));
    let out = contract.internal_direct_actions(t("x.near"), 100, None, &swap_x_to_y(1), &vec![]);
    assert_eq!(out, Err(PipelineError::ActionPreconditionViolated));
}

#[test]
fn zero_deposit_settles_with_nothing_to_hand_out() {
    let contract = exchange();
    let out = contract.internal_direct_actions(t("x.near"), 0, None, &[], &vec![]);
    assert_eq!(out, Ok(vec![]));
}

#[test]
fn states_follow_the_pipeline() {
    let all = [
        PipelineState::Received,
        PipelineState::GasChecked,
        PipelineState::RiskPending,
        PipelineState::RiskApproved,
        PipelineState::RiskRejected,
        PipelineState::Executing,
        PipelineState::Settled,
        PipelineState::Failed,
    ];
    let steps = [
        (PipelineState::Received, PipelineState::GasChecked),
        (PipelineState::GasChecked, PipelineState::RiskPending),
        (PipelineState::RiskPending, PipelineState::RiskApproved),
        (PipelineState::RiskPending, PipelineState::RiskRejected),
        (PipelineState::RiskPending, PipelineState::Failed),
        (PipelineState::RiskApproved, PipelineState::Executing),
        (PipelineState::Executing, PipelineState::Settled),
        (PipelineState::Executing, PipelineState::Failed),
    ];
    for from in all.iter() {
        for to in all.iter() {
            assert_eq!(from.can_step_to(to), steps.contains(&(*from, *to)), "{:?} {:?}", from, to);
        }
    }
    for state in all.iter() {
        assert_eq!(
            state.terminal(),
            matches!(
                state,
                PipelineState::RiskRejected | PipelineState::Settled | PipelineState::Failed
            )
        );
    }
}

#[test]
fn swap_that_names_a_bad_referrer_makes_the_message_malformed() {
    let actions = vec![
        AmlOperation::AddLiquidity { pool_id: 1, amounts: vec![1], min_amounts: None },
        AmlOperation::Swap { actions: vec![], referral_id: Some(t("Not An Account")) },
    ];
    let taken = exchange().ft_on_transfer(
        t("x.near"),
        t("alice.near"),
        100,
        &t("{}"),
        execute(Some("ref.near"), actions),
        0,
        300 * TERA,
        0,
    );
    assert_eq!(taken.err(), Some(PipelineError::WrongMessageFormat));
}

#[test]
fn swap_that_names_a_good_referrer_goes_through() {
    let actions = vec![AmlOperation::Swap { actions: vec![], referral_id: Some(t("own.near")) }];
    let taken = exchange().ft_on_transfer(
        t("x.near"),
        t("alice.near"),
        100,
        &t("{}"),
        execute(None, actions),
        0,
        300 * TERA,
        0,
    );
    assert!(matches!(taken, Ok(Admission::Suspended(_))));
}

#[test]
fn settlement_after_liquidity_hands_out_the_claim_and_the_rest() {
    let actions = vec![AmlOperation::AddStableLiquidity {
        pool_id: 3,
        amounts: vec![60],
        min_shares: 50,
    }];
    let replies = vec![PoolReply::Minted {
        claim: t(":3"),
        tokens: vec![t("x.near")],
        used: vec![60],
        shares: 58,
    }];
    let outcome = resume(0, actions, replies);
    assert_eq!(outcome.state, PipelineState::Settled);
    let handed: Vec<(String, u128)> = outcome
        .transfers
        .iter()
        .map(|transfer| (transfer.token_id.clone(), transfer.amount))
        .collect();
    assert_eq!(handed, vec![(t("x.near"), 40), (t(":3"), 58)]);
}
