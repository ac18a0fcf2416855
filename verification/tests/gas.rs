use ref_exchange::error::PipelineError;
use ref_exchange::gas::{
    assert_sufficient, AML_CHECK_GAS, MIN_FT_EXECUTION_GAS, PROMISE_SCHEDULING_GAS,
};

#[test]
fn execution_floor_is_fifty_teragas() {
    assert_eq!(MIN_FT_EXECUTION_GAS, 50_000_000_000_000);
}

#[test]
fn budget_that_just_covers_everything_passes() {
    assert_eq!(assert_sufficient(100, 10, 20, 30, 40), Ok(40));
}

#[test]
fn budget_one_short_is_rejected() {
    assert_eq!(assert_sufficient(99, 10, 20, 30, 40), Err(PipelineError::InsufficientGas));
    assert_eq!(assert_sufficient(100, 10, 20, 30, 41), Err(PipelineError::InsufficientGas));
}

#[test]
fn continuation_gets_what_query_and_scheduling_leave() {
    assert_eq!(assert_sufficient(1_000, 100, 200, 50, 0), Ok(650));
    assert_eq!(assert_sufficient(1_000, 0, 0, 0, 1_000), Ok(1_000));
}

#[test]
fn more_consumed_than_prepaid_is_rejected() {
    assert_eq!(assert_sufficient(5, 6, 0, 0, 0), Err(PipelineError::InsufficientGas));
}

#[test]
fn costs_beyond_the_largest_budget_are_rejected_without_overflow() {
    assert_eq!(
        assert_sufficient(u64::MAX, u64::MAX, u64::MAX, u64::MAX, u64::MAX),
        Err(PipelineError::InsufficientGas)
    );
    assert_eq!(assert_sufficient(u64::MAX, 0, 0, 0, u64::MAX), Ok(u64::MAX));
    assert_eq!(assert_sufficient(u64::MAX, 1, 0, 0, u64::MAX), Err(PipelineError::InsufficientGas));
}

#[test]
fn standing_costs_with_the_floor() {
    let needed = AML_CHECK_GAS + PROMISE_SCHEDULING_GAS + MIN_FT_EXECUTION_GAS;
    assert_eq!(
        assert_sufficient(needed, 0, AML_CHECK_GAS, PROMISE_SCHEDULING_GAS, MIN_FT_EXECUTION_GAS),
        Ok(MIN_FT_EXECUTION_GAS)
    );
    assert_eq!(
        assert_sufficient(
            needed - 1,
            0,
            AML_CHECK_GAS,
            PROMISE_SCHEDULING_GAS,
            MIN_FT_EXECUTION_GAS
        ),
        Err(PipelineError::InsufficientGas)
    );
}
