use vstd::prelude::*;
use crate::ledger::Entries;

verus! {

/// One hop of a swap: trade `token_in` for `token_out` in one pool.
#[derive(Debug)]
pub struct SwapAction {
    /// The pool that makes the trade.
    pub pool_id: u64,
    /// The token given.
    pub token_in: String,
    /// How much is given; where absent, what the step before put out.
    pub amount_in: Option<u128>,
    /// The token wanted.
    pub token_out: String,
    /// The least output the depositor accepts.
    pub min_amount_out: u128,
}

/// The mathematical value of a [`SwapAction`].
pub struct HopView {
    pub pool_id: u64,
    pub token_in: Seq<char>,
    pub amount_in: Option<u128>,
    pub token_out: Seq<char>,
    pub min_amount_out: u128,
}

impl View for SwapAction {
    type V = HopView;

    open spec fn view(&self) -> HopView {
        HopView {
            pool_id: self.pool_id,
            token_in: self.token_in@,
            amount_in: self.amount_in,
            token_out: self.token_out@,
            min_amount_out: self.min_amount_out,
        }
    }
}

/// One operation that a depositor can ask for.
#[derive(Debug)]
pub enum AmlOperation {
    /// A chain of swaps, each hop feeding the next.
    Swap { actions: Vec<SwapAction>, referral_id: Option<String> },
    /// Adds the given amounts to a pool, each not below its minimum.
    AddLiquidity { pool_id: u64, amounts: Vec<u128>, min_amounts: Option<Vec<u128>> },
    /// Adds the given amounts to a stable pool for at least `min_shares`.
    AddStableLiquidity { pool_id: u64, amounts: Vec<u128>, min_shares: u128 },
}

/// The pipeline's word for an operation in a depositor's list.
pub type Action = AmlOperation;

/// The mathematical value of an [`AmlOperation`].
pub enum OperationView {
    Swap { hops: Seq<HopView>, referral_id: Option<Seq<char>> },
    AddLiquidity { pool_id: u64, amounts: Seq<u128>, min_amounts: Option<Seq<u128>> },
    AddStableLiquidity { pool_id: u64, amounts: Seq<u128>, min_shares: u128 },
}

/// The optional text as its characters.
pub open spec fn text_of(name: Option<String>) -> Option<Seq<char>> {
    match name {
        Some(s) => Some(s@),
        None => None,
    }
}

/// The optional amounts as a sequence.
pub open spec fn amounts_of(amounts: Option<Vec<u128>>) -> Option<Seq<u128>> {
    match amounts {
        Some(v) => Some(v@),
        None => None,
    }
}

/// The hops as a sequence of their values.
pub open spec fn hops_of(hops: Seq<SwapAction>) -> Seq<HopView> {
    Seq::new(hops.len(), |i: int| hops[i]@)
}

impl View for AmlOperation {
    type V = OperationView;

    open spec fn view(&self) -> OperationView {
        match *self {
            AmlOperation::Swap { actions, referral_id } => OperationView::Swap {
                hops: hops_of(actions@),
                referral_id: text_of(referral_id),
            },
            AmlOperation::AddLiquidity { pool_id, amounts, min_amounts } => {
                OperationView::AddLiquidity {
                    pool_id,
                    amounts: amounts@,
                    min_amounts: amounts_of(min_amounts),
                }
            },
            AmlOperation::AddStableLiquidity { pool_id, amounts, min_shares } => {
                OperationView::AddStableLiquidity { pool_id, amounts: amounts@, min_shares }
            },
        }
    }
}

/// The operations as a sequence of their values.
pub open spec fn operations_of(actions: Seq<AmlOperation>) -> Seq<OperationView> {
    Seq::new(actions.len(), |i: int| actions[i]@)
}

/// The value handed from one action to the next.
#[derive(Debug)]
pub enum ActionResult {
    /// The amount of the token now in flight.
    Amount(u128),
    /// Several balances, after an operation with more than one output.
    Balances(Vec<(String, u128)>),
}

/// The mathematical value of an [`ActionResult`].
pub enum ResultView {
    Amount(u128),
    Balances(Entries),
}

impl View for ActionResult {
    type V = ResultView;

    open spec fn view(&self) -> ResultView {
        match *self {
            ActionResult::Amount(amount) => ResultView::Amount(amount),
            ActionResult::Balances(balances) => ResultView::Balances(balances.deep_view()),
        }
    }
}

/// What is asked of the pools for one step of an action.
#[derive(Debug)]
pub enum PoolRequest {
    Swap {
        pool_id: u64,
        token_in: String,
        amount_in: u128,
        token_out: String,
        min_amount_out: u128,
        referral_id: Option<String>,
    },
    AddLiquidity { pool_id: u64, amounts: Vec<u128>, min_amounts: Option<Vec<u128>> },
    AddStableLiquidity { pool_id: u64, amounts: Vec<u128>, min_shares: u128 },
}

/// The mathematical value of a [`PoolRequest`].
pub enum RequestView {
    Swap {
        pool_id: u64,
        token_in: Seq<char>,
        amount_in: u128,
        token_out: Seq<char>,
        min_amount_out: u128,
        referral_id: Option<Seq<char>>,
    },
    AddLiquidity { pool_id: u64, amounts: Seq<u128>, min_amounts: Option<Seq<u128>> },
    AddStableLiquidity { pool_id: u64, amounts: Seq<u128>, min_shares: u128 },
}

impl View for PoolRequest {
    type V = RequestView;

    open spec fn view(&self) -> RequestView {
        match *self {
            PoolRequest::Swap {
                pool_id,
                token_in,
                amount_in,
                token_out,
                min_amount_out,
                referral_id,
            } => RequestView::Swap {
                pool_id,
                token_in: token_in@,
                amount_in,
                token_out: token_out@,
                min_amount_out,
                referral_id: text_of(referral_id),
            },
            PoolRequest::AddLiquidity { pool_id, amounts, min_amounts } => {
                RequestView::AddLiquidity {
                    pool_id,
                    amounts: amounts@,
                    min_amounts: amounts_of(min_amounts),
                }
            },
            PoolRequest::AddStableLiquidity { pool_id, amounts, min_shares } => {
                RequestView::AddStableLiquidity { pool_id, amounts: amounts@, min_shares }
            },
        }
    }
}

/// What the pools answered to one request.
#[derive(Debug)]
pub enum PoolReply {
    /// The pool is unknown, or it turned the request down.
    Refused,
    /// A swap put out this much of the wanted token.
    Swapped { amount_out: u128 },
    /// Liquidity went in: `used[i]` of `tokens[i]` was taken, and `shares`
    /// were minted as a balance of the token `claim`.
    Minted { claim: String, tokens: Vec<String>, used: Vec<u128>, shares: u128 },
}

/// The mathematical value of a [`PoolReply`].
pub enum ReplyView {
    Refused,
    Swapped { amount_out: u128 },
    Minted { claim: Seq<char>, tokens: Seq<Seq<char>>, used: Seq<u128>, shares: u128 },
}

impl View for PoolReply {
    type V = ReplyView;

    open spec fn view(&self) -> ReplyView {
        match *self {
            PoolReply::Refused => ReplyView::Refused,
            PoolReply::Swapped { amount_out } => ReplyView::Swapped { amount_out },
            PoolReply::Minted { claim, tokens, used, shares } => ReplyView::Minted {
                claim: claim@,
                tokens: tokens.deep_view(),
                used: used@,
                shares,
            },
        }
    }
}

/// The replies as a sequence of their values.
pub open spec fn replies_of(replies: Seq<PoolReply>) -> Seq<ReplyView> {
    Seq::new(replies.len(), |i: int| replies[i]@)
}

} // verus!
