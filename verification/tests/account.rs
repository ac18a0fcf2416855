use ref_exchange::account::{VirtualAccount, VIRTUAL_ACC};
use ref_exchange::error::PipelineError;

fn t(name: &str) -> String {
    name.to_string()
}

#[test]
fn new_account_is_empty() {
    let mut account = VirtualAccount::new();
    assert_eq!(account.balance(&t("x")), 0);
    assert!(account.drain().is_empty());
}

#[test]
fn scratch_account_has_the_sentinel_identifier() {
    let account = VirtualAccount::new();
    assert_eq!(account.account_id(), "@");
    assert_eq!(VIRTUAL_ACC, "@");
}

#[test]
fn deposit_adds_exactly_the_amount() {
    let mut account = VirtualAccount::new();
    account.deposit(&t("x"), 100);
    assert_eq!(account.balance(&t("x")), 100);
    account.deposit(&t("x"), 23);
    assert_eq!(account.balance(&t("x")), 123);
    assert_eq!(account.balance(&t("y")), 0);
}

#[test]
fn deposit_of_zero_keeps_the_balance() {
    let mut account = VirtualAccount::new();
    account.deposit(&t("x"), 0);
    assert_eq!(account.balance(&t("x")), 0);
    assert!(account.drain().is_empty());
}

#[test]
fn deposit_up_to_the_largest_balance() {
    let mut account = VirtualAccount::new();
    account.deposit(&t("x"), u128::MAX - 1);
    account.deposit(&t("x"), 1);
    assert_eq!(account.balance(&t("x")), u128::MAX);
}

#[test]
fn deposits_of_different_tokens_do_not_mix() {
    let mut account = VirtualAccount::new();
    account.deposit(&t("x"), 1);
    account.deposit(&t("y"), 2);
    account.deposit(&t("x"), 3);
    assert_eq!(account.balance(&t("x")), 4);
    assert_eq!(account.balance(&t("y")), 2);
}

#[test]
fn withdraw_takes_exactly_the_amount() {
    let mut account = VirtualAccount::new();
    account.deposit(&t("x"), 10);
    assert_eq!(account.withdraw(&t("x"), 4), Ok(()));
    assert_eq!(account.balance(&t("x")), 6);
    assert_eq!(account.withdraw(&t("x"), 6), Ok(()));
    assert_eq!(account.balance(&t("x")), 0);
}

#[test]
fn withdraw_of_more_than_held_changes_nothing() {
    let mut account = VirtualAccount::new();
    account.deposit(&t("x"), 10);
    assert_eq!(account.withdraw(&t("x"), 11), Err(PipelineError::ActionPreconditionViolated));
    assert_eq!(account.balance(&t("x")), 10);
}

#[test]
fn withdraw_of_an_unknown_token_fails() {
    let mut account = VirtualAccount::new();
    account.deposit(&t("x"), 10);
    assert_eq!(account.withdraw(&t("y"), 0), Err(PipelineError::ActionPreconditionViolated));
    assert_eq!(account.withdraw(&t("y"), 1), Err(PipelineError::ActionPreconditionViolated));
    assert_eq!(account.balance(&t("x")), 10);
}

#[test]
fn drain_hands_out_positive_balances_in_order_and_clears() {
    let mut account = VirtualAccount::new();
    account.deposit(&t("x"), 5);
    account.deposit(&t("y"), 7);
    account.deposit(&t("z"), 9);
    assert_eq!(account.withdraw(&t("y"), 7), Ok(()));
    let out = account.drain();
    assert_eq!(out, vec![(t("x"), 5), (t("z"), 9)]);
    assert_eq!(account.balance(&t("x")), 0);
    assert_eq!(account.balance(&t("z")), 0);
    assert!(account.drain().is_empty());
}

#[test]
fn drain_conserves_the_total() {
    let mut account = VirtualAccount::new();
    account.deposit(&t("a"), 11);
    account.deposit(&t("b"), 0);
    account.deposit(&t("c"), 31);
    let out = account.drain();
    let sum: u128 = out.iter().map(|entry| entry.1).sum();
    assert_eq!(sum, 42);
}

#[test]
fn duplicate_is_independent_of_its_source() {
    let mut account = VirtualAccount::new();
    account.deposit(&t("x"), 5);
    let mut copy = account.duplicate();
    copy.deposit(&t("x"), 1);
    assert_eq!(account.balance(&t("x")), 5);
    assert_eq!(copy.balance(&t("x")), 6);
}
