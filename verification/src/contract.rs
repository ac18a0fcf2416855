use vstd::prelude::*;
use crate::account::VirtualAccount;
use crate::action::{
    operations_of, replies_of, text_of, Action, ActionResult, AmlOperation, PoolReply,
    PoolRequest,
};
use crate::engine::ActionEngine;
use crate::error::PipelineError;
use crate::gas::{
    assert_sufficient, sufficient, Gas, AML_CHECK_GAS, MIN_FT_EXECUTION_GAS,
    PROMISE_SCHEDULING_GAS,
};
use crate::identity::is_valid_account_id;
use crate::laws::law_settlement_conserves;
use crate::ledger::{lemma_credited, total};
use crate::message::{
    decoded_of, Admission, PendingOperation, Refund, RiskQuery, Settlement, TokenReceiverMessage,
    Transfer,
};
use crate::pipeline_model::{
    acceptable, admission, bad_name, bad_referral, direct_outcome, executed, next_request,
    refund_for, settled, swap_with_bad_name, transferred, transfers_to, ContractView,
};
use crate::risk::CategoryRisk;
use crate::state::PipelineState;

verus! {

/// The answer to a risk query as its value, if there is one.
pub open spec fn risk_of(answer: Option<CategoryRisk>) -> Option<(Seq<char>, u8)> {
    match answer {
        Some(risk) => Some((risk.0@, risk.1)),
        None => None,
    }
}

/// Whether a referrer is named that cannot be an account.
fn names_bad_referrer(referral_id: &Option<String>) -> (bad: bool)
    ensures
        bad == bad_name(text_of(*referral_id)),
{
    match referral_id {
        Some(id) => !is_valid_account_id(id),
        None => false,
    }
}

/// Whether one of the operations is a swap that names a referrer that cannot
/// be an account.
fn some_swap_names_bad_referrer(actions: &Vec<Action>) -> (bad: bool)
    ensures
        bad == exists|i: int|
            0 <= i < actions.len() && swap_with_bad_name(#[trigger] operations_of(actions@)[i]),
{
    let mut i: usize = 0;
    while i < actions.len()
        invariant
            i <= actions.len(),
            forall|k: int| 0 <= k < i ==> !swap_with_bad_name(#[trigger] operations_of(actions@)[k]),
        decreases actions.len() - i,
    {
        let bad = match &actions[i] {
            AmlOperation::Swap { referral_id, .. } => names_bad_referrer(referral_id),
            _ => false,
        };
        if bad {
            assert(swap_with_bad_name(operations_of(actions@)[i as int]));
            return true;
        }
        i += 1;
    }
    false
}

/// The exchange's side of the pipeline: it takes deposits in, sends the
/// depositor to the risk service, and on the answer applies the depositor's
/// operations and hands out what they leave.
pub struct Contract {
    aml_account_id: String,
    risk_threshold: u8,
}

impl View for Contract {
    type V = ContractView;

    open spec fn view(&self) -> ContractView {
        self.settings()
    }
}

impl Contract {
    /// The settings of the exchange.
    pub closed spec fn settings(&self) -> ContractView {
        ContractView { aml_account_id: self.aml_account_id@, risk_threshold: self.risk_threshold }
    }

    /// An exchange that asks `aml_account_id` about its depositors and lets
    /// through those with a risk score of at most `risk_threshold`.
    pub fn new(aml_account_id: String, risk_threshold: u8) -> (contract: Self)
        ensures
            contract@ == (ContractView { aml_account_id: aml_account_id@, risk_threshold }),
    {
        Contract { aml_account_id, risk_threshold }
    }

    /// The service that scores depositors.
    pub fn aml_account_id(&self) -> (id: &String)
        ensures
            id@ == self@.aml_account_id,
    {
        &self.aml_account_id
    }

    /// The highest risk score with which a deposit goes through.
    pub fn risk_threshold(&self) -> (threshold: u8)
        ensures
            threshold == self@.risk_threshold,
    {
        self.risk_threshold
    }

    /// Holds the answer of the risk service against the threshold: the
    /// score decides, whatever the label.
    pub fn assert_risk(&self, category_risk: &CategoryRisk) -> (verdict: Result<(), PipelineError>)
        ensures
            verdict is Ok <==> acceptable(self@.risk_threshold, category_risk.1),
            verdict is Err ==> verdict == Err::<(), PipelineError>(PipelineError::RiskRejected),
    {
        if category_risk.1 > self.risk_threshold {
            Err(PipelineError::RiskRejected)
        } else {
            Ok(())
        }
    }

    /// Takes a deposit of `amount` of `token_in` from `sender_id` in. `msg`
    /// is the message that came with it and `decoded` what the decoder made
    /// of it, `None` where it could not be decoded; `balance` is the
    /// depositor's stored balance of the token. Nothing is changed here:
    /// the caller stores the new balance or sends the query.
    pub fn ft_on_transfer(
        &self,
        token_in: String,
        sender_id: String,
        amount: u128,
        msg: &String,
        decoded: Option<TokenReceiverMessage>,
        balance: u128,
        prepaid_gas: Gas,
        used_gas: Gas,
    ) -> (taken: Result<Admission, PipelineError>)
        requires
            msg@.len() == 0 ==> balance + amount <= u128::MAX,
        ensures
            match admission(
                self@,
                token_in@,
                sender_id@,
                amount,
                msg@,
                decoded_of(decoded),
                balance,
                prepaid_gas,
                used_gas,
            ) {
                Ok(expected) => taken matches Ok(admitted) && admitted@ == expected,
                Err(e) => taken matches Err(f) && f == e,
            },
            msg@.len() == 0 ==> (taken matches Ok(Admission::Deposited { balance: after, unused })
                && after == balance + amount && unused == 0),
            (taken matches Err(e) && e == PipelineError::WrongMessageFormat) <==> (msg@.len() > 0 && (
            decoded is None || bad_referral(decoded.unwrap()@))),
            (taken matches Err(e) && e == PipelineError::InsufficientGas) <==> (msg@.len() > 0
                && decoded is Some && !bad_referral(decoded.unwrap()@) && !sufficient(
                prepaid_gas,
                used_gas,
                AML_CHECK_GAS,
                PROMISE_SCHEDULING_GAS,
                MIN_FT_EXECUTION_GAS,
            )),
            taken matches Err(e) ==> e == PipelineError::WrongMessageFormat || e
                == PipelineError::InsufficientGas,
            taken matches Ok(Admission::Suspended(query)) ==> msg@.len() > 0 && sufficient(
                prepaid_gas,
                used_gas,
                AML_CHECK_GAS,
                PROMISE_SCHEDULING_GAS,
                MIN_FT_EXECUTION_GAS,
            ) && query.callback_gas >= MIN_FT_EXECUTION_GAS,
    {
        if msg.as_str().is_empty() {
            return Ok(Admission::Deposited { balance: balance + amount, unused: 0 });
        }
        let message = match decoded {
            Some(message) => message,
            None => {
                return Err(PipelineError::WrongMessageFormat);
            },
        };
        let TokenReceiverMessage::Execute { referral_id, actions } = message;
        if names_bad_referrer(&referral_id) || some_swap_names_bad_referrer(&actions) {
            return Err(PipelineError::WrongMessageFormat);
        }
        let callback_gas = match assert_sufficient(
            prepaid_gas,
            used_gas,
            AML_CHECK_GAS,
            PROMISE_SCHEDULING_GAS,
            MIN_FT_EXECUTION_GAS,
        ) {
            Ok(left) => left,
            Err(e) => {
                return Err(e);
            },
        };
        let address = sender_id.clone();
        Ok(
            Admission::Suspended(
                RiskQuery {
                    aml_account_id: self.aml_account_id.clone(),
                    address,
                    query_gas: AML_CHECK_GAS,
                    callback_gas,
                    pending: PendingOperation { token_in, sender_id, amount, referral_id, actions },
                },
            ),
        )
    }

    /// Applies `actions` to a fresh scratch account that holds the deposit,
    /// with `replies` as the pools' answers, and hands out what is left in
    /// it. Where an operation cannot be applied, nothing is handed out.
    pub fn internal_direct_actions(
        &self,
        token_in: String,
        amount_in: u128,
        referral_id: Option<String>,
        actions: &[Action],
        replies: &Vec<PoolReply>,
    ) -> (out: Result<Vec<(String, u128)>, PipelineError>)
        ensures
            match direct_outcome(
                token_in@,
                amount_in,
                text_of(referral_id),
                operations_of(actions@),
                replies_of(replies@),
            ) {
                Ok(balances) => out matches Ok(amounts) && amounts.deep_view() == balances,
                Err(e) => out matches Err(f) && f == e,
            },
    {
        let mut account = VirtualAccount::new();
        proof {
            lemma_credited(account@, token_in@, amount_in);
        }
        account.deposit(&token_in, amount_in);
        let result = ActionEngine::execute(
            &mut account,
            &referral_id,
            actions,
            ActionResult::Amount(amount_in),
            replies,
        );
        match result {
            Ok(_) => Ok(account.drain()),
            Err(e) => Err(e),
        }
    }

    /// Resumes a deposit once the risk query is back. `category_risk` is
    /// its answer, `None` where there is none; the arguments after it are
    /// what the deposit carried; `replies` are the pools' answers.
    pub fn callback_instant_swap(
        &self,
        category_risk: Option<CategoryRisk>,
        token_in: String,
        sender_id: String,
        amount: u128,
        referral_id: Option<String>,
        actions: Vec<Action>,
        replies: Vec<PoolReply>,
    ) -> (outcome: Settlement)
        ensures
            outcome@ == settled(
                self@,
                risk_of(category_risk),
                token_in@,
                sender_id@,
                amount,
                text_of(referral_id),
                operations_of(actions@),
                replies_of(replies@),
            ),
            category_risk is None ==> outcome.state == PipelineState::Failed && outcome.error
                == Some(PipelineError::RiskQueryFailed),
            (category_risk matches Some(risk) && risk.1 > self@.risk_threshold) ==> outcome.state
                == PipelineState::RiskRejected && outcome.error == Some(PipelineError::RiskRejected),
            outcome.state != PipelineState::Settled ==> outcome@.transfers.len() == 0,
            outcome.returned == 0,
            outcome.state == PipelineState::Settled ==> transferred(outcome@.transfers) == total(
                executed(
                    token_in@,
                    amount,
                    text_of(referral_id),
                    operations_of(actions@),
                    replies_of(replies@),
                ).entries,
            ),
    {
        proof {
            if settled(
                self@,
                risk_of(category_risk),
                token_in@,
                sender_id@,
                amount,
                text_of(referral_id),
                operations_of(actions@),
                replies_of(replies@),
            ).state == PipelineState::Settled {
                law_settlement_conserves(
                    self@,
                    risk_of(category_risk),
                    token_in@,
                    sender_id@,
                    amount,
                    text_of(referral_id),
                    operations_of(actions@),
                    replies_of(replies@),
                );
            }
        }
        let risk = match category_risk {
            Some(risk) => risk,
            None => {
                return Contract::keep(PipelineState::Failed, PipelineError::RiskQueryFailed);
            },
        };
        match self.assert_risk(&risk) {
            Ok(_) => {},
            Err(e) => {
                return Contract::keep(PipelineState::RiskRejected, e);
            },
        }
        let out_amounts = match self.internal_direct_actions(
            token_in,
            amount,
            referral_id,
            actions.as_slice(),
            &replies,
        ) {
            Ok(amounts) => amounts,
            Err(e) => {
                return Contract::keep(PipelineState::Failed, e);
            },
        };
        let mut transfers: Vec<Transfer> = Vec::new();
        let mut i: usize = 0;
        while i < out_amounts.len()
            invariant
                i <= out_amounts.len(),
                transfers.len() == i,
                forall|k: int|
                    0 <= k < i ==> (#[trigger] transfers[k])@ == transfers_to(
                        sender_id@,
                        out_amounts.deep_view(),
                    )[k],
            decreases out_amounts.len() - i,
        {
            transfers.push(
                Transfer {
                    token_id: out_amounts[i].0.clone(),
                    receiver_id: sender_id.clone(),
                    amount: out_amounts[i].1,
                },
            );
            i += 1;
        }
        let outcome = Settlement {
            state: PipelineState::Settled,
            error: None,
            transfers,
            returned: 0,
        };
        assert(outcome@.transfers =~= transfers_to(sender_id@, out_amounts.deep_view()));
        outcome
    }

    /// A continuation that came to rest in `state` for the reason `error`.
    fn keep(state: PipelineState, error: PipelineError) -> (outcome: Settlement)
        ensures
            outcome@ == crate::pipeline_model::kept(state, error),
    {
        let outcome = Settlement { state, error: Some(error), transfers: Vec::new(), returned: 0 };
        assert(outcome@.transfers =~= Seq::<crate::message::TransferView>::empty());
        outcome
    }

    /// What has to be asked of the pools next for a deposit whose risk query
    /// is back, given the answers `replies` that have come so far.
    pub fn next_pool_request(
        &self,
        category_risk: &Option<CategoryRisk>,
        token_in: &String,
        amount: u128,
        referral_id: &Option<String>,
        actions: &[Action],
        replies: &Vec<PoolReply>,
    ) -> (request: Option<PoolRequest>)
        ensures
            match next_request(
                self@,
                risk_of(*category_risk),
                token_in@,
                amount,
                text_of(*referral_id),
                operations_of(actions@),
                replies_of(replies@),
            ) {
                Some(r) => request matches Some(q) && q@ == r,
                None => request is None,
            },
    {
        match category_risk {
            None => None,
            Some(risk) => {
                if self.assert_risk(risk).is_err() {
                    return None;
                }
                let mut account = VirtualAccount::new();
                proof {
                    lemma_credited(account@, token_in@, amount);
                }
                account.deposit(token_in, amount);
                let mut engine = ActionEngine::new(account, ActionResult::Amount(amount));
                engine.run(actions, referral_id, replies);
                engine.into_awaited()
            },
        }
    }

    /// Decides what goes back to the sender of a plain deposit once it is
    /// known whether the transfer that followed it succeeded.
    pub fn handle_refund(&self, transfer_succeeded: bool, sender_id: String, attached_deposit: u128)
        -> (refund: Option<Refund>)
        ensures
            match refund_for(transfer_succeeded, sender_id@, attached_deposit) {
                Some(r) => refund matches Some(q) && q@ == r,
                None => refund is None,
            },
    {
        if transfer_succeeded {
            None
        } else {
            Some(
                Refund {
                    receiver_id: sender_id,
                    amount: attached_deposit,
                    reason: PipelineError::TransferFailed,
                },
            )
        }
    }
}

} // verus!
