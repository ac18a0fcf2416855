use vstd::prelude::*;
use crate::action::{HopView, OperationView, ReplyView, RequestView, ResultView};
use crate::error::PipelineError;
use crate::ledger::{balance_of, credited, debited, Entries};

verus! {

/// Whether the engine can go on.
pub enum StatusView {
    /// Every step so far was applied.
    Running,
    /// The next step needs an answer from the pools that is not there yet.
    Waiting(RequestView),
    /// A step could not be applied.
    Failed,
}

/// The mathematical state of the engine during one run.
pub struct EngineView {
    /// The entries of the scratch account.
    pub entries: Entries,
    /// The value that the last applied step put out.
    pub result: ResultView,
    /// How many replies have been used up.
    pub consumed: nat,
    /// Whether the run can go on.
    pub status: StatusView,
}

/// The state before the first step.
pub open spec fn start(entries: Entries, initial: ResultView) -> EngineView {
    EngineView { entries, result: initial, consumed: 0, status: StatusView::Running }
}

/// The state `s` with the run ended in failure; the account stays as it is.
pub open spec fn failed(s: EngineView) -> EngineView {
    EngineView { status: StatusView::Failed, ..s }
}

/// The state `s` with the run held up for the answer to `request`.
pub open spec fn waiting(s: EngineView, request: RequestView) -> EngineView {
    EngineView { status: StatusView::Waiting(request), ..s }
}

/// What a hop takes in: its own amount, else the amount in flight.
pub open spec fn hop_amount(hop: HopView, result: ResultView) -> Option<u128> {
    match hop.amount_in {
        Some(amount) => Some(amount),
        None => match result {
            ResultView::Amount(amount) => Some(amount),
            ResultView::Balances(_) => None,
        },
    }
}

/// The referrer named to the pools: the swap's own, else the deposit's.
pub open spec fn referral_for(own: Option<Seq<char>>, outer: Option<Seq<char>>) -> Option<
    Seq<char>,
> {
    if own is Some {
        own
    } else {
        outer
    }
}

/// The request that a hop sends to its pool.
pub open spec fn hop_request(hop: HopView, amount_in: u128, referral: Option<Seq<char>>)
    -> RequestView {
    RequestView::Swap {
        pool_id: hop.pool_id,
        token_in: hop.token_in,
        amount_in,
        token_out: hop.token_out,
        min_amount_out: hop.min_amount_out,
        referral_id: referral,
    }
}

/// The state after one hop. A hop is applied whole or not at all: its input
/// leaves the account and its output enters it only where the input is
/// covered, the pool answered with an output that reaches the hop's minimum,
/// and the new balance fits.
pub open spec fn after_hop(
    s: EngineView,
    hop: HopView,
    referral: Option<Seq<char>>,
    replies: Seq<ReplyView>,
) -> EngineView {
    if !(s.status is Running) {
        s
    } else {
        match hop_amount(hop, s.result) {
            None => failed(s),
            Some(amount_in) => match debited(s.entries, hop.token_in, amount_in) {
                None => failed(s),
                Some(entries) => if s.consumed >= replies.len() {
                    waiting(s, hop_request(hop, amount_in, referral))
                } else {
                    match replies[s.consumed as int] {
                        ReplyView::Swapped { amount_out } => if amount_out >= hop.min_amount_out
                            && balance_of(entries, hop.token_out) + amount_out <= u128::MAX {
                            EngineView {
                                entries: credited(entries, hop.token_out, amount_out),
                                result: ResultView::Amount(amount_out),
                                consumed: s.consumed + 1,
                                status: StatusView::Running,
                            }
                        } else {
                            failed(s)
                        },
                        _ => failed(s),
                    }
                },
            },
        }
    }
}

/// The state after the hops of one swap, applied in order.
pub open spec fn after_hops(
    s: EngineView,
    hops: Seq<HopView>,
    referral: Option<Seq<char>>,
    replies: Seq<ReplyView>,
) -> EngineView
    decreases hops.len(),
{
    if hops.len() == 0 {
        s
    } else {
        after_hop(after_hops(s, hops.drop_last(), referral, replies), hops.last(), referral, replies)
    }
}

/// The sheet after `used[i]` of `tokens[i]` has been taken out for every `i`,
/// in order; `None` where one of them is not covered.
pub open spec fn debited_all(entries: Entries, tokens: Seq<Seq<char>>, used: Seq<u128>) -> Option<
    Entries,
>
    decreases tokens.len(),
{
    if tokens.len() == 0 || used.len() == 0 {
        Some(entries)
    } else {
        match debited_all(entries, tokens.drop_last(), used.drop_last()) {
            Some(rest) => debited(rest, tokens.last(), used.last()),
            None => None,
        }
    }
}

/// No more was taken of any token than was offered.
pub open spec fn within(used: Seq<u128>, amounts: Seq<u128>) -> bool {
    used.len() == amounts.len() && forall|i: int|
        0 <= i < used.len() ==> #[trigger] used[i] <= amounts[i]
}

/// What was taken reaches each minimum that was named.
pub open spec fn meets_minimums(used: Seq<u128>, minimums: Option<Seq<u128>>) -> bool {
    match minimums {
        Some(m) => forall|i: int| 0 <= i < used.len() && i < m.len() ==> #[trigger] used[i] >= m[i],
        None => true,
    }
}

/// Whether an operation that adds liquidity accepts what the pool took and
/// minted. A swap accepts nothing here.
pub open spec fn accepts(operation: OperationView, used: Seq<u128>, shares: u128) -> bool {
    match operation {
        OperationView::Swap { .. } => false,
        OperationView::AddLiquidity { amounts, min_amounts, .. } => within(used, amounts)
            && meets_minimums(used, min_amounts),
        OperationView::AddStableLiquidity { amounts, min_shares, .. } => used == amounts && shares
            >= min_shares,
    }
}

/// The request that an operation which adds liquidity sends to its pool; a
/// swap sends none of this kind.
pub open spec fn liquidity_request(operation: OperationView) -> Option<RequestView> {
    match operation {
        OperationView::AddStableLiquidity { pool_id, amounts, min_shares } => Some(
            RequestView::AddStableLiquidity { pool_id, amounts, min_shares },
        ),
        OperationView::AddLiquidity { pool_id, amounts, min_amounts } => Some(
            RequestView::AddLiquidity { pool_id, amounts, min_amounts },
        ),
        OperationView::Swap { .. } => None,
    }
}

/// The state after an operation that adds liquidity. It is applied whole or
/// not at all: what the pool took leaves the account and the minted shares
/// enter it, as a balance of the claim, only where the operation accepts the
/// answer, everything taken is covered, and the new balance fits. A swap
/// cannot be applied in this way.
pub open spec fn after_liquidity(s: EngineView, operation: OperationView, replies: Seq<ReplyView>)
    -> EngineView {
    if !(s.status is Running) {
        s
    } else {
        match liquidity_request(operation) {
            None => failed(s),
            Some(request) => if s.consumed >= replies.len() {
                waiting(s, request)
            } else {
                match replies[s.consumed as int] {
                    ReplyView::Minted { claim, tokens, used, shares } => if tokens.len()
                        == used.len() && accepts(operation, used, shares) {
                        match debited_all(s.entries, tokens, used) {
                            Some(entries) => if balance_of(entries, claim) + shares <= u128::MAX {
                                EngineView {
                                    entries: credited(entries, claim, shares),
                                    result: ResultView::Balances(seq![(claim, shares)]),
                                    consumed: s.consumed + 1,
                                    status: StatusView::Running,
                                }
                            } else {
                                failed(s)
                            },
                            None => failed(s),
                        }
                    } else {
                        failed(s)
                    },
                    _ => failed(s),
                }
            },
        }
    }
}

/// The state after one operation.
pub open spec fn after_action(
    s: EngineView,
    operation: OperationView,
    outer: Option<Seq<char>>,
    replies: Seq<ReplyView>,
) -> EngineView {
    match operation {
        OperationView::Swap { hops, referral_id } => after_hops(
            s,
            hops,
            referral_for(referral_id, outer),
            replies,
        ),
        _ => after_liquidity(s, operation, replies),
    }
}

/// The state after a list of operations, applied in order. Once a step has
/// failed or waits, the later ones change nothing.
pub open spec fn after_actions(
    s: EngineView,
    operations: Seq<OperationView>,
    outer: Option<Seq<char>>,
    replies: Seq<ReplyView>,
) -> EngineView
    decreases operations.len(),
{
    if operations.len() == 0 {
        s
    } else {
        after_action(
            after_actions(s, operations.drop_last(), outer, replies),
            operations.last(),
            outer,
            replies,
        )
    }
}

/// What a run yields: the last result where every step was applied, a
/// violated precondition otherwise. A step that still waits for its answer
/// counts as not applied.
pub open spec fn verdict(s: EngineView) -> Result<ResultView, PipelineError> {
    if s.status is Running {
        Ok(s.result)
    } else {
        Err(PipelineError::ActionPreconditionViolated)
    }
}

/// The request that the run waits for, if it waits.
pub open spec fn awaited(s: EngineView) -> Option<RequestView> {
    match s.status {
        StatusView::Waiting(request) => Some(request),
        _ => None,
    }
}

/// Where a part of the withdrawals is not covered, the whole is not.
pub proof fn lemma_debited_all_prefix(
    entries: Entries,
    tokens: Seq<Seq<char>>,
    used: Seq<u128>,
    k: int,
)
    requires
        tokens.len() == used.len(),
        0 <= k <= tokens.len(),
        debited_all(entries, tokens.take(k), used.take(k)) is None,
    ensures
        debited_all(entries, tokens, used) is None,
    decreases tokens.len() - k,
{
    if k < tokens.len() {
        assert(tokens.take(k + 1).drop_last() =~= tokens.take(k));
        assert(used.take(k + 1).drop_last() =~= used.take(k));
        lemma_debited_all_prefix(entries, tokens, used, k + 1);
    } else {
        assert(tokens.take(k) =~= tokens);
        assert(used.take(k) =~= used);
    }
}

} // verus!
