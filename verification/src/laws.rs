use vstd::prelude::*;
use crate::action::{OperationView, ReplyView};
use crate::engine_laws::{
    law_run_ignores_later_answers, law_run_keeps_tokens_distinct,
    law_waiting_run_used_every_answer,
};
use crate::error::PipelineError;
use crate::gas::{sufficient, Gas, AML_CHECK_GAS, MIN_FT_EXECUTION_GAS, PROMISE_SCHEDULING_GAS};
use crate::ledger::{lemma_credited, lemma_positive, positive, total, Entries};
use crate::message::{AdmissionView, MessageView, PendingView, QueryView};
use crate::pipeline_model::{
    acceptable, admission, bad_referral, continuation_path, executed, kept, next_request, refund_for, seeded,
    settled, transferred, transfers_to, ContractView,
};
use crate::state::PipelineState;

verus! {

/// A deposit with an empty message raises the depositor's stored balance by
/// exactly the deposited amount, gives nothing back, and sends no risk query,
/// whatever else came with it.
pub proof fn law_plain_deposit_credits_exactly(
    contract: ContractView,
    token_in: Seq<char>,
    sender_id: Seq<char>,
    amount: u128,
    msg: Seq<char>,
    decoded: Option<MessageView>,
    balance: u128,
    prepaid_gas: Gas,
    used_gas: Gas,
)
    requires
        msg.len() == 0,
        balance + amount <= u128::MAX,
    ensures
        admission(
            contract,
            token_in,
            sender_id,
            amount,
            msg,
            decoded,
            balance,
            prepaid_gas,
            used_gas,
        ) matches Ok(AdmissionView::Deposited { balance: after, unused }) && after == balance
            + amount && unused == 0,
{
}

/// A deposit with a well-formed message and too little compute is turned
/// down for that reason, so no risk query goes out and nothing is taken in.
/// Taking a deposit in changes nothing, so the same deposit offered again
/// with enough compute is suspended exactly as if it had never been turned
/// down: the query names the depositor and carries the deposit unchanged.
pub proof fn law_insufficient_gas_rejects_and_retry_succeeds(
    contract: ContractView,
    token_in: Seq<char>,
    sender_id: Seq<char>,
    amount: u128,
    msg: Seq<char>,
    message: MessageView,
    balance: u128,
    short_gas: Gas,
    short_used: Gas,
    prepaid_gas: Gas,
    used_gas: Gas,
)
    requires
        msg.len() > 0,
        !bad_referral(message),
        !sufficient(
            short_gas,
            short_used,
            AML_CHECK_GAS,
            PROMISE_SCHEDULING_GAS,
            MIN_FT_EXECUTION_GAS,
        ),
        sufficient(
            prepaid_gas,
            used_gas,
            AML_CHECK_GAS,
            PROMISE_SCHEDULING_GAS,
            MIN_FT_EXECUTION_GAS,
        ),
    ensures
        admission(
            contract,
            token_in,
            sender_id,
            amount,
            msg,
            Some(message),
            balance,
            short_gas,
            short_used,
        ) == Err::<AdmissionView, PipelineError>(PipelineError::InsufficientGas),
        admission(
            contract,
            token_in,
            sender_id,
            amount,
            msg,
            Some(message),
            balance,
            prepaid_gas,
            used_gas,
        ) == Ok::<AdmissionView, PipelineError>(
            AdmissionView::Suspended(
                QueryView {
                    aml_account_id: contract.aml_account_id,
                    address: sender_id,
                    query_gas: AML_CHECK_GAS,
                    callback_gas: (prepaid_gas - used_gas - AML_CHECK_GAS
                        - PROMISE_SCHEDULING_GAS) as u64,
                    pending: PendingView {
                        token_in,
                        sender_id,
                        amount,
                        referral_id: message->referral_id,
                        actions: message->actions,
                    },
                },
            ),
        ),
        prepaid_gas - used_gas - AML_CHECK_GAS - PROMISE_SCHEDULING_GAS >= MIN_FT_EXECUTION_GAS,
{
}

/// With a risk score above the threshold the deposit is rejected: the pools
/// are never asked for anything, so no operation is applied, nothing is
/// handed out, and nothing goes back to the depositor, whatever the deposit
/// and the pools' answers are.
pub proof fn law_rejected_risk_keeps_deposit(
    contract: ContractView,
    label: Seq<char>,
    score: u8,
    token_in: Seq<char>,
    sender_id: Seq<char>,
    amount: u128,
    referral_id: Option<Seq<char>>,
    actions: Seq<OperationView>,
    replies: Seq<ReplyView>,
)
    requires
        score > contract.risk_threshold,
    ensures
        settled(
            contract,
            Some((label, score)),
            token_in,
            sender_id,
            amount,
            referral_id,
            actions,
            replies,
        ) == kept(PipelineState::RiskRejected, PipelineError::RiskRejected),
        settled(
            contract,
            Some((label, score)),
            token_in,
            sender_id,
            amount,
            referral_id,
            actions,
            replies,
        ).transfers.len() == 0,
        settled(
            contract,
            Some((label, score)),
            token_in,
            sender_id,
            amount,
            referral_id,
            actions,
            replies,
        ).returned == 0,
        next_request(contract, Some((label, score)), token_in, amount, referral_id, actions, replies)
            is None,
{
}

/// The transfers made for a list of balances carry, in sum, the total of the
/// balances.
pub proof fn lemma_transfers_carry_total(receiver_id: Seq<char>, balances: Entries)
    ensures
        transferred(transfers_to(receiver_id, balances)) == total(balances),
    decreases balances.len(),
{
    if balances.len() > 0 {
        let rest = balances.drop_last();
        assert(transfers_to(receiver_id, balances).drop_last() =~= transfers_to(receiver_id, rest));
        lemma_transfers_carry_total(receiver_id, rest);
    }
}

/// Where every operation is applied, what is handed out is exactly what the
/// scratch account holds at the end: one transfer to the depositor for each
/// balance above zero, in the account's order, and in sum the account's
/// total. The pipeline itself adds nothing and loses nothing.
pub proof fn law_settlement_conserves(
    contract: ContractView,
    risk: Option<(Seq<char>, u8)>,
    token_in: Seq<char>,
    sender_id: Seq<char>,
    amount: u128,
    referral_id: Option<Seq<char>>,
    actions: Seq<OperationView>,
    replies: Seq<ReplyView>,
)
    requires
        settled(contract, risk, token_in, sender_id, amount, referral_id, actions, replies).state
            == PipelineState::Settled,
    ensures
        ({
            let outcome = settled(
                contract,
                risk,
                token_in,
                sender_id,
                amount,
                referral_id,
                actions,
                replies,
            );
            let end = executed(token_in, amount, referral_id, actions, replies);
            &&& outcome.transfers == transfers_to(sender_id, positive(end.entries))
            &&& transferred(outcome.transfers) == total(end.entries)
            &&& forall|i: int|
                0 <= i < outcome.transfers.len() ==> (#[trigger] outcome.transfers[i]).amount > 0
                    && outcome.transfers[i].receiver_id == sender_id
            &&& forall|i: int, j: int|
                0 <= i < j < outcome.transfers.len() ==> (#[trigger] outcome.transfers[i]).token_id
                    != (#[trigger] outcome.transfers[j]).token_id
        }),
{
    let end = executed(token_in, amount, referral_id, actions, replies);
    lemma_credited(Seq::empty(), token_in, amount);
    law_run_keeps_tokens_distinct(seeded(token_in, amount), actions, referral_id, replies);
    lemma_positive(end.entries);
    lemma_transfers_carry_total(sender_id, positive(end.entries));
    let outcome = settled(contract, risk, token_in, sender_id, amount, referral_id, actions, replies);
    assert forall|i: int| 0 <= i < outcome.transfers.len() implies (
    #[trigger] outcome.transfers[i]).amount > 0 && outcome.transfers[i].receiver_id
        == sender_id by {
        assert(positive(end.entries)[i].1 > 0);
    }
    assert forall|i: int, j: int| 0 <= i < j < outcome.transfers.len() implies (
    #[trigger] outcome.transfers[i]).token_id != (#[trigger] outcome.transfers[j]).token_id by {
        assert(positive(end.entries)[i].0 != positive(end.entries)[j].0);
    }
}

/// Where an operation cannot be applied, or the risk query has no answer,
/// nothing is handed out and nothing goes back.
pub proof fn law_failure_hands_out_nothing(
    contract: ContractView,
    risk: Option<(Seq<char>, u8)>,
    token_in: Seq<char>,
    sender_id: Seq<char>,
    amount: u128,
    referral_id: Option<Seq<char>>,
    actions: Seq<OperationView>,
    replies: Seq<ReplyView>,
)
    ensures
        ({
            let outcome = settled(
                contract,
                risk,
                token_in,
                sender_id,
                amount,
                referral_id,
                actions,
                replies,
            );
            &&& outcome.returned == 0
            &&& outcome.state != PipelineState::Settled ==> outcome.transfers.len() == 0
                && outcome.error is Some
            &&& outcome.state == PipelineState::Settled ==> outcome.error is None
            &&& outcome.state.is_terminal()
            &&& PipelineState::is_path(continuation_path(outcome))
            &&& continuation_path(outcome).last() == outcome.state
        }),
{
}

/// A plain deposit whose transfer failed gives the attached payment back to
/// the sender, whole and once; one whose transfer succeeded gives nothing
/// back.
pub proof fn law_refund_only_on_failed_transfer(
    transfer_succeeded: bool,
    sender_id: Seq<char>,
    attached_deposit: u128,
)
    ensures
        transfer_succeeded ==> refund_for(transfer_succeeded, sender_id, attached_deposit) is None,
        !transfer_succeeded ==> (refund_for(transfer_succeeded, sender_id, attached_deposit)
            matches Some(refund) && refund.receiver_id == sender_id && refund.amount
            == attached_deposit),
{
}

/// Once nothing more is to be asked of the pools, further answers change
/// nothing: the continuation ends as it would without them. So the answers
/// gathered by asking until nothing is asked settle the deposit for good.
pub proof fn law_settlement_ignores_surplus_answers(
    contract: ContractView,
    risk: Option<(Seq<char>, u8)>,
    token_in: Seq<char>,
    sender_id: Seq<char>,
    amount: u128,
    referral_id: Option<Seq<char>>,
    actions: Seq<OperationView>,
    replies: Seq<ReplyView>,
    more: Seq<ReplyView>,
)
    requires
        next_request(contract, risk, token_in, amount, referral_id, actions, replies) is None,
    ensures
        settled(contract, risk, token_in, sender_id, amount, referral_id, actions, replies + more)
            == settled(contract, risk, token_in, sender_id, amount, referral_id, actions, replies),
        next_request(contract, risk, token_in, amount, referral_id, actions, replies + more)
            is None,
{
    if risk matches Some((_, score)) && acceptable(contract.risk_threshold, score) {
        law_run_ignores_later_answers(seeded(token_in, amount), actions, referral_id, replies, more);
    }
}

/// While something is still to be asked of the pools, every answer given so
/// far has been used, and the deposit does not settle: the next answer is
/// the one that the run waits for.
pub proof fn law_pending_request_blocks_settlement(
    contract: ContractView,
    risk: Option<(Seq<char>, u8)>,
    token_in: Seq<char>,
    sender_id: Seq<char>,
    amount: u128,
    referral_id: Option<Seq<char>>,
    actions: Seq<OperationView>,
    replies: Seq<ReplyView>,
)
    requires
        next_request(contract, risk, token_in, amount, referral_id, actions, replies) is Some,
    ensures
        executed(token_in, amount, referral_id, actions, replies).consumed == replies.len(),
        settled(contract, risk, token_in, sender_id, amount, referral_id, actions, replies).state
            == PipelineState::Failed,
{
    law_waiting_run_used_every_answer(seeded(token_in, amount), actions, referral_id, replies);
}

} // verus!
