use vstd::prelude::*;
use crate::error::PipelineError;

verus! {

/// An amount of compute.
pub type Gas = u64;

/// The least compute that must be left for the continuation to run the
/// depositor's operations.
pub const MIN_FT_EXECUTION_GAS: Gas = 50_000_000_000_000;

/// The compute set aside for the risk query.
pub const AML_CHECK_GAS: Gas = 10_000_000_000_000;

/// The compute that scheduling the continuation costs.
pub const PROMISE_SCHEDULING_GAS: Gas = 5_000_000_000_000;

/// Whether what is left of the prepaid compute covers the query, the
/// scheduling and the floor.
pub open spec fn sufficient(
    prepaid: Gas,
    already_consumed: Gas,
    query_cost: Gas,
    scheduling_cost: Gas,
    minimum_execution_floor: Gas,
) -> bool {
    prepaid - already_consumed >= query_cost + scheduling_cost + minimum_execution_floor
}

/// What is left for the continuation once the query and the scheduling are
/// paid for.
pub open spec fn continuation_gas(
    prepaid: Gas,
    already_consumed: Gas,
    query_cost: Gas,
    scheduling_cost: Gas,
) -> int {
    prepaid - already_consumed - query_cost - scheduling_cost
}

/// Decides, before anything is sent out, whether the prepaid compute covers
/// the rest of the pipeline, and if so how much of it the continuation gets.
pub fn assert_sufficient(
    prepaid: Gas,
    already_consumed: Gas,
    query_cost: Gas,
    scheduling_cost: Gas,
    minimum_execution_floor: Gas,
) -> (budget: Result<Gas, PipelineError>)
    ensures
        match budget {
            Ok(left) => sufficient(
                prepaid,
                already_consumed,
                query_cost,
                scheduling_cost,
                minimum_execution_floor,
            ) && left == continuation_gas(prepaid, already_consumed, query_cost, scheduling_cost),
            Err(e) => !sufficient(
                prepaid,
                already_consumed,
                query_cost,
                scheduling_cost,
                minimum_execution_floor,
            ) && e == PipelineError::InsufficientGas,
        },
{
    let spent: u128 = already_consumed as u128 + query_cost as u128 + scheduling_cost as u128;
    let needed: u128 = spent + minimum_execution_floor as u128;
    if (prepaid as u128) < needed {
        Err(PipelineError::InsufficientGas)
    } else {
        Ok(prepaid - (spent as u64))
    }
}

} // verus!
