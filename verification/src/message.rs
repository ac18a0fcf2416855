use vstd::prelude::*;
use crate::action::{operations_of, text_of, Action, OperationView};
use crate::error::PipelineError;
use crate::gas::Gas;
use crate::state::PipelineState;

verus! {

/// What a non-empty deposit message holds once it has been decoded.
#[derive(Debug)]
pub enum TokenReceiverMessage {
    /// Apply `actions` in order to the deposit, in place of a deposit
    /// followed by separate calls.
    Execute { referral_id: Option<String>, actions: Vec<Action> },
}

/// The mathematical value of a [`TokenReceiverMessage`].
pub enum MessageView {
    Execute { referral_id: Option<Seq<char>>, actions: Seq<OperationView> },
}

impl View for TokenReceiverMessage {
    type V = MessageView;

    open spec fn view(&self) -> MessageView {
        match *self {
            TokenReceiverMessage::Execute { referral_id, actions } => MessageView::Execute {
                referral_id: text_of(referral_id),
                actions: operations_of(actions@),
            },
        }
    }
}

/// The decoded message as its value, if there is one.
pub open spec fn decoded_of(decoded: Option<TokenReceiverMessage>) -> Option<MessageView> {
    match decoded {
        Some(message) => Some(message@),
        None => None,
    }
}

/// All that is carried from the deposit to the continuation while the risk
/// query is out.
#[derive(Debug)]
pub struct PendingOperation {
    /// The token that was deposited.
    pub token_in: String,
    /// Who deposited it.
    pub sender_id: String,
    /// How much was deposited.
    pub amount: u128,
    /// Who referred the depositor, if anyone.
    pub referral_id: Option<String>,
    /// The operations to apply, in order.
    pub actions: Vec<Action>,
}

/// The mathematical value of a [`PendingOperation`].
pub struct PendingView {
    pub token_in: Seq<char>,
    pub sender_id: Seq<char>,
    pub amount: u128,
    pub referral_id: Option<Seq<char>>,
    pub actions: Seq<OperationView>,
}

impl View for PendingOperation {
    type V = PendingView;

    open spec fn view(&self) -> PendingView {
        PendingView {
            token_in: self.token_in@,
            sender_id: self.sender_id@,
            amount: self.amount,
            referral_id: text_of(self.referral_id),
            actions: operations_of(self.actions@),
        }
    }
}

/// The risk query that a deposit with operations gives rise to, with what
/// its continuation needs.
#[derive(Debug)]
pub struct RiskQuery {
    /// The service that is asked.
    pub aml_account_id: String,
    /// The address that is asked about: the depositor.
    pub address: String,
    /// The compute given to the query.
    pub query_gas: Gas,
    /// The compute given to the continuation.
    pub callback_gas: Gas,
    /// What the continuation resumes with.
    pub pending: PendingOperation,
}

/// The mathematical value of a [`RiskQuery`].
pub struct QueryView {
    pub aml_account_id: Seq<char>,
    pub address: Seq<char>,
    pub query_gas: Gas,
    pub callback_gas: Gas,
    pub pending: PendingView,
}

impl View for RiskQuery {
    type V = QueryView;

    open spec fn view(&self) -> QueryView {
        QueryView {
            aml_account_id: self.aml_account_id@,
            address: self.address@,
            query_gas: self.query_gas,
            callback_gas: self.callback_gas,
            pending: self.pending@,
        }
    }
}

/// How a deposit was taken in.
#[derive(Debug)]
pub enum Admission {
    /// A plain deposit: the depositor's stored balance of the token is now
    /// `balance`, and `unused` of the deposit goes back to the sender.
    Deposited { balance: u128, unused: u128 },
    /// A deposit with operations: the pipeline is held up until the query is
    /// answered.
    Suspended(RiskQuery),
}

/// The mathematical value of an [`Admission`].
pub enum AdmissionView {
    Deposited { balance: u128, unused: u128 },
    Suspended(QueryView),
}

impl View for Admission {
    type V = AdmissionView;

    open spec fn view(&self) -> AdmissionView {
        match *self {
            Admission::Deposited { balance, unused } => AdmissionView::Deposited { balance, unused },
            Admission::Suspended(query) => AdmissionView::Suspended(query@),
        }
    }
}

/// One outbound transfer of a token to a receiver.
#[derive(Debug)]
pub struct Transfer {
    pub token_id: String,
    pub receiver_id: String,
    pub amount: u128,
}

/// The mathematical value of a [`Transfer`].
pub struct TransferView {
    pub token_id: Seq<char>,
    pub receiver_id: Seq<char>,
    pub amount: u128,
}

impl View for Transfer {
    type V = TransferView;

    open spec fn view(&self) -> TransferView {
        TransferView {
            token_id: self.token_id@,
            receiver_id: self.receiver_id@,
            amount: self.amount,
        }
    }
}

/// The transfers as a sequence of their values.
pub open spec fn transfers_of(transfers: Seq<Transfer>) -> Seq<TransferView> {
    Seq::new(transfers.len(), |i: int| transfers[i]@)
}

/// How the continuation of a deposit ended.
#[derive(Debug)]
pub struct Settlement {
    /// The state in which the pipeline came to rest.
    pub state: PipelineState,
    /// Why it did not settle, if it did not.
    pub error: Option<PipelineError>,
    /// The transfers to make to the depositor.
    pub transfers: Vec<Transfer>,
    /// How much of the deposit goes back to the sender.
    pub returned: u128,
}

/// The mathematical value of a [`Settlement`].
pub struct SettlementView {
    pub state: PipelineState,
    pub error: Option<PipelineError>,
    pub transfers: Seq<TransferView>,
    pub returned: u128,
}

impl View for Settlement {
    type V = SettlementView;

    open spec fn view(&self) -> SettlementView {
        SettlementView {
            state: self.state,
            error: self.error,
            transfers: transfers_of(self.transfers@),
            returned: self.returned,
        }
    }
}

/// The payment that goes back to a sender whose plain deposit could not be
/// passed on.
#[derive(Debug)]
pub struct Refund {
    pub receiver_id: String,
    pub amount: u128,
    pub reason: PipelineError,
}

/// The mathematical value of a [`Refund`].
pub struct RefundView {
    pub receiver_id: Seq<char>,
    pub amount: u128,
    pub reason: PipelineError,
}

impl View for Refund {
    type V = RefundView;

    open spec fn view(&self) -> RefundView {
        RefundView { receiver_id: self.receiver_id@, amount: self.amount, reason: self.reason }
    }
}

} // verus!
