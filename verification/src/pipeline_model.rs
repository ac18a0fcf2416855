use vstd::prelude::*;
use crate::action::{OperationView, ReplyView, RequestView, ResultView};
use crate::engine_model::{after_actions, awaited, start, EngineView};
use crate::error::PipelineError;
use crate::gas::{
    continuation_gas, sufficient, Gas, AML_CHECK_GAS, MIN_FT_EXECUTION_GAS,
    PROMISE_SCHEDULING_GAS,
};
use crate::identity::valid_account_id;
use crate::ledger::{credited, positive, Entries};
use crate::message::{
    AdmissionView, MessageView, PendingView, QueryView, RefundView, SettlementView, TransferView,
};
use crate::state::PipelineState;

verus! {

/// The mathematical value of the exchange's settings.
pub struct ContractView {
    /// The service that scores depositors.
    pub aml_account_id: Seq<char>,
    /// The highest risk score with which a deposit goes through.
    pub risk_threshold: u8,
}

/// Whether a risk score is within the threshold.
pub open spec fn acceptable(risk_threshold: u8, score: u8) -> bool {
    score <= risk_threshold
}

/// Whether a referrer is named that cannot be an account.
pub open spec fn bad_name(referral_id: Option<Seq<char>>) -> bool {
    referral_id matches Some(id) && !valid_account_id(id)
}

/// Whether the operation is a swap that names a referrer that cannot be an
/// account.
pub open spec fn swap_with_bad_name(operation: OperationView) -> bool {
    operation matches OperationView::Swap { referral_id, .. } && bad_name(referral_id)
}

/// Whether the message, or one of its swaps, names a referrer that cannot be
/// an account.
pub open spec fn bad_referral(message: MessageView) -> bool {
    message matches MessageView::Execute { referral_id, actions } && (bad_name(referral_id)
        || exists|i: int| 0 <= i < actions.len() && swap_with_bad_name(#[trigger] actions[i]))
}

/// How a deposit is taken in. An empty message makes it a plain deposit: the
/// stored balance grows by the amount and nothing is asked of anyone. Any
/// other message must have been decoded, name no referrer that cannot be an
/// account, neither for itself nor for one of its swaps, and come with
/// compute for the query, the scheduling and the floor; then the risk query goes out, carrying the whole deposit.
pub open spec fn admission(
    contract: ContractView,
    token_in: Seq<char>,
    sender_id: Seq<char>,
    amount: u128,
    msg: Seq<char>,
    decoded: Option<MessageView>,
    balance: u128,
    prepaid_gas: Gas,
    used_gas: Gas,
) -> Result<AdmissionView, PipelineError> {
    if msg.len() == 0 {
        Ok(AdmissionView::Deposited { balance: (balance + amount) as u128, unused: 0 })
    } else {
        match decoded {
            None => Err(PipelineError::WrongMessageFormat),
            Some(MessageView::Execute { referral_id, actions }) => if bad_referral(
                decoded.unwrap(),
            ) {
                Err(PipelineError::WrongMessageFormat)
            } else if !sufficient(
                prepaid_gas,
                used_gas,
                AML_CHECK_GAS,
                PROMISE_SCHEDULING_GAS,
                MIN_FT_EXECUTION_GAS,
            ) {
                Err(PipelineError::InsufficientGas)
            } else {
                Ok(
                    AdmissionView::Suspended(
                        QueryView {
                            aml_account_id: contract.aml_account_id,
                            address: sender_id,
                            query_gas: AML_CHECK_GAS,
                            callback_gas: continuation_gas(
                                prepaid_gas,
                                used_gas,
                                AML_CHECK_GAS,
                                PROMISE_SCHEDULING_GAS,
                            ) as u64,
                            pending: PendingView {
                                token_in,
                                sender_id,
                                amount,
                                referral_id,
                                actions,
                            },
                        },
                    ),
                )
            },
        }
    }
}

/// The engine before the first operation: a fresh scratch account that
/// holds the deposit, with the deposited amount in flight.
pub open spec fn seeded(token_in: Seq<char>, amount: u128) -> EngineView {
    start(credited(Seq::empty(), token_in, amount), ResultView::Amount(amount))
}

/// The engine after the deposit's operations.
pub open spec fn executed(
    token_in: Seq<char>,
    amount: u128,
    referral_id: Option<Seq<char>>,
    actions: Seq<OperationView>,
    replies: Seq<ReplyView>,
) -> EngineView {
    after_actions(seeded(token_in, amount), actions, referral_id, replies)
}

/// What the operations leave to hand out: the balances above zero of the
/// scratch account where every operation was applied, a violated
/// precondition otherwise.
pub open spec fn direct_outcome(
    token_in: Seq<char>,
    amount: u128,
    referral_id: Option<Seq<char>>,
    actions: Seq<OperationView>,
    replies: Seq<ReplyView>,
) -> Result<Entries, PipelineError> {
    let end = executed(token_in, amount, referral_id, actions, replies);
    if end.status is Running {
        Ok(positive(end.entries))
    } else {
        Err(PipelineError::ActionPreconditionViolated)
    }
}

/// One transfer to `receiver_id` for each balance, in order.
pub open spec fn transfers_to(receiver_id: Seq<char>, balances: Entries) -> Seq<TransferView> {
    Seq::new(
        balances.len(),
        |i: int| TransferView { token_id: balances[i].0, receiver_id, amount: balances[i].1 },
    )
}

/// The sum of the amounts of the transfers.
pub open spec fn transferred(transfers: Seq<TransferView>) -> nat
    decreases transfers.len(),
{
    if transfers.len() == 0 {
        0
    } else {
        transferred(transfers.drop_last()) + transfers.last().amount as nat
    }
}

/// A continuation that ended in `state` for the reason `error`, with
/// nothing handed out and nothing given back.
pub open spec fn kept(state: PipelineState, error: PipelineError) -> SettlementView {
    SettlementView { state, error: Some(error), transfers: Seq::empty(), returned: 0 }
}

/// How the continuation of a deposit ends. Without an answer to the risk
/// query it fails; with a score above the threshold the deposit is rejected;
/// in both cases no operation is applied. Otherwise the operations are
/// applied: where one of them cannot be, the run fails and nothing is handed
/// out; where all can, every balance above zero of the scratch account goes
/// to the depositor. In no case does any of the deposit go back.
pub open spec fn settled(
    contract: ContractView,
    risk: Option<(Seq<char>, u8)>,
    token_in: Seq<char>,
    sender_id: Seq<char>,
    amount: u128,
    referral_id: Option<Seq<char>>,
    actions: Seq<OperationView>,
    replies: Seq<ReplyView>,
) -> SettlementView {
    match risk {
        None => kept(PipelineState::Failed, PipelineError::RiskQueryFailed),
        Some((_, score)) => if !acceptable(contract.risk_threshold, score) {
            kept(PipelineState::RiskRejected, PipelineError::RiskRejected)
        } else {
            match direct_outcome(token_in, amount, referral_id, actions, replies) {
                Ok(balances) => SettlementView {
                    state: PipelineState::Settled,
                    error: None,
                    transfers: transfers_to(sender_id, balances),
                    returned: 0,
                },
                Err(e) => kept(PipelineState::Failed, e),
            }
        },
    }
}

/// The states that the continuation goes through, from the pending query
/// to where it comes to rest.
pub open spec fn continuation_path(outcome: SettlementView) -> Seq<PipelineState> {
    if outcome.state == PipelineState::RiskRejected {
        seq![PipelineState::RiskPending, PipelineState::RiskRejected]
    } else if outcome.error == Some(PipelineError::RiskQueryFailed) {
        seq![PipelineState::RiskPending, PipelineState::Failed]
    } else {
        seq![
            PipelineState::RiskPending,
            PipelineState::RiskApproved,
            PipelineState::Executing,
            outcome.state,
        ]
    }
}

/// What has to be asked of the pools next, given the answers so far: the
/// request of the first step that has no answer yet. Nothing is asked
/// without an accepted answer to the risk query, after a failed step, or
/// once every step is applied.
pub open spec fn next_request(
    contract: ContractView,
    risk: Option<(Seq<char>, u8)>,
    token_in: Seq<char>,
    amount: u128,
    referral_id: Option<Seq<char>>,
    actions: Seq<OperationView>,
    replies: Seq<ReplyView>,
) -> Option<RequestView> {
    match risk {
        Some((_, score)) => if acceptable(contract.risk_threshold, score) {
            awaited(executed(token_in, amount, referral_id, actions, replies))
        } else {
            None
        },
        None => None,
    }
}

/// What goes back to the sender of a plain deposit: the attached payment
/// where the transfer did not succeed, nothing where it did.
pub open spec fn refund_for(transfer_succeeded: bool, sender_id: Seq<char>, attached_deposit: u128)
    -> Option<RefundView> {
    if transfer_succeeded {
        None
    } else {
        Some(
            RefundView {
                receiver_id: sender_id,
                amount: attached_deposit,
                reason: PipelineError::TransferFailed,
            },
        )
    }
}

} // verus!
