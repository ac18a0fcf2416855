use vstd::prelude::*;
use crate::account::VirtualAccount;
use crate::action::{
    amounts_of, hops_of, operations_of, replies_of, text_of, ActionResult, AmlOperation,
    PoolReply, PoolRequest, SwapAction,
};
use crate::engine_model::{
    accepts, after_action, after_actions, after_hop, after_hops, after_liquidity, awaited,
    debited_all, lemma_debited_all_prefix, meets_minimums, start, verdict, within, EngineView,
    StatusView,
};
use crate::error::PipelineError;

verus! {

/// Whether the engine can go on.
#[derive(Debug)]
pub enum EngineStatus {
    /// Every step so far was applied.
    Running,
    /// The next step needs an answer from the pools that is not there yet.
    Waiting(PoolRequest),
    /// A step could not be applied.
    Failed,
}

impl View for EngineStatus {
    type V = StatusView;

    open spec fn view(&self) -> StatusView {
        match *self {
            EngineStatus::Running => StatusView::Running,
            EngineStatus::Waiting(request) => StatusView::Waiting(request@),
            EngineStatus::Failed => StatusView::Failed,
        }
    }
}

/// Applies a depositor's operations, one after the other, to a scratch
/// account, with the pools' answers taken from a list in the order in which
/// the requests arise.
pub struct ActionEngine {
    account: VirtualAccount,
    result: ActionResult,
    consumed: usize,
    status: EngineStatus,
}

impl View for ActionEngine {
    type V = EngineView;

    open spec fn view(&self) -> EngineView {
        self.state()
    }
}

/// A copy of an optional name.
fn copy_text(name: &Option<String>) -> (copy: Option<String>)
    ensures
        text_of(copy) == text_of(*name),
{
    match name {
        Some(s) => Some(s.clone()),
        None => None,
    }
}

/// A copy of a list of amounts.
fn copy_amounts(amounts: &Vec<u128>) -> (copy: Vec<u128>)
    ensures
        copy@ == amounts@,
{
    let mut copy: Vec<u128> = Vec::new();
    let mut i: usize = 0;
    while i < amounts.len()
        invariant
            i <= amounts.len(),
            copy@ == amounts@.take(i as int),
        decreases amounts.len() - i,
    {
        copy.push(amounts[i]);
        assert(copy@ =~= amounts@.take(i + 1));
        i += 1;
    }
    assert(amounts@.take(i as int) =~= amounts@);
    copy
}

/// A copy of an optional list of amounts.
fn copy_minimums(amounts: &Option<Vec<u128>>) -> (copy: Option<Vec<u128>>)
    ensures
        amounts_of(copy) == amounts_of(*amounts),
{
    match amounts {
        Some(v) => Some(copy_amounts(v)),
        None => None,
    }
}

/// Whether no more was taken of any token than was offered.
fn check_within(used: &Vec<u128>, amounts: &Vec<u128>) -> (ok: bool)
    ensures
        ok == within(used@, amounts@),
{
    if used.len() != amounts.len() {
        return false;
    }
    let mut i: usize = 0;
    while i < used.len()
        invariant
            i <= used.len(),
            used.len() == amounts.len(),
            forall|k: int| 0 <= k < i ==> #[trigger] used@[k] <= amounts@[k],
        decreases used.len() - i,
    {
        if used[i] > amounts[i] {
            return false;
        }
        i += 1;
    }
    true
}

/// Whether what was taken reaches each minimum that was named.
fn check_minimums(used: &Vec<u128>, minimums: &Option<Vec<u128>>) -> (ok: bool)
    ensures
        ok == meets_minimums(used@, amounts_of(*minimums)),
{
    match minimums {
        None => true,
        Some(m) => {
            let mut i: usize = 0;
            while i < used.len() && i < m.len()
                invariant
                    i <= used.len(),
                    i <= m.len(),
                    *minimums == Some(*m),
                    forall|k: int| 0 <= k < i ==> #[trigger] used@[k] >= m@[k],
                decreases used.len() - i,
            {
                if used[i] < m[i] {
                    assert(!(used@[i as int] >= m@[i as int]));
                    return false;
                }
                i += 1;
            }
            true
        },
    }
}

/// Whether the two lists hold the same amounts.
fn same_amounts(used: &Vec<u128>, amounts: &Vec<u128>) -> (ok: bool)
    ensures
        ok == (used@ == amounts@),
{
    if used.len() != amounts.len() {
        return false;
    }
    let mut i: usize = 0;
    while i < used.len()
        invariant
            i <= used.len(),
            used.len() == amounts.len(),
            forall|k: int| 0 <= k < i ==> #[trigger] used@[k] == amounts@[k],
        decreases used.len() - i,
    {
        if used[i] != amounts[i] {
            return false;
        }
        i += 1;
    }
    assert(used@ =~= amounts@);
    true
}

/// Whether an operation that adds liquidity accepts the pool's answer.
fn check_accepts(operation: &AmlOperation, used: &Vec<u128>, shares: u128) -> (ok: bool)
    ensures
        ok == accepts(operation@, used@, shares),
{
    match operation {
        AmlOperation::Swap { .. } => false,
        AmlOperation::AddLiquidity { amounts, min_amounts, .. } => check_within(used, amounts)
            && check_minimums(used, min_amounts),
        AmlOperation::AddStableLiquidity { amounts, min_shares, .. } => same_amounts(used, amounts)
            && shares >= *min_shares,
    }
}

impl ActionEngine {
    /// The state of the run.
    pub closed spec fn state(&self) -> EngineView {
        EngineView {
            entries: self.account@,
            result: self.result@,
            consumed: self.consumed as nat,
            status: self.status@,
        }
    }

    /// The scratch account holds no token twice.
    pub closed spec fn wf(&self) -> bool {
        self.account.wf()
    }

    /// An engine at the start of a run on `account`, with `initial` as the
    /// value in flight.
    pub fn new(account: VirtualAccount, initial: ActionResult) -> (engine: Self)
        requires
            account.wf(),
        ensures
            engine.wf(),
            engine@ == start(account@, initial@),
    {
        ActionEngine { account, result: initial, consumed: 0, status: EngineStatus::Running }
    }

    /// Whether every step so far was applied.
    pub fn is_running(&self) -> (running: bool)
        ensures
            running == (self@.status is Running),
    {
        match &self.status {
            EngineStatus::Running => true,
            _ => false,
        }
    }

    /// Applies one hop of a swap.
    pub fn hop(&mut self, hop: &SwapAction, referral: &Option<String>, replies: &Vec<PoolReply>)
        requires
            old(self).wf(),
        ensures
            final(self).wf(),
            final(self)@ == after_hop(old(self)@, hop@, text_of(*referral), replies_of(replies@)),
    {
        if !self.is_running() {
            return ;
        }
        let amount_in = match hop.amount_in {
            Some(amount) => amount,
            None => match &self.result {
                ActionResult::Amount(amount) => *amount,
                ActionResult::Balances(_) => {
                    self.status = EngineStatus::Failed;
                    return ;
                },
            },
        };
        let mut scratch = self.account.duplicate();
        match scratch.withdraw(&hop.token_in, amount_in) {
            Ok(_) => {},
            Err(_) => {
                self.status = EngineStatus::Failed;
                return ;
            },
        }
        if self.consumed >= replies.len() {
            self.status = EngineStatus::Waiting(
                PoolRequest::Swap {
                    pool_id: hop.pool_id,
                    token_in: hop.token_in.clone(),
                    amount_in,
                    token_out: hop.token_out.clone(),
                    min_amount_out: hop.min_amount_out,
                    referral_id: copy_text(referral),
                },
            );
            return ;
        }
        match &replies[self.consumed] {
            PoolReply::Swapped { amount_out } => {
                let out = *amount_out;
                let held = scratch.balance(&hop.token_out);
                if out < hop.min_amount_out || held > u128::MAX - out {
                    self.status = EngineStatus::Failed;
                    return ;
                }
                scratch.deposit(&hop.token_out, out);
                self.account = scratch;
                self.result = ActionResult::Amount(out);
                self.consumed = self.consumed + 1;
            },
            _ => {
                self.status = EngineStatus::Failed;
            },
        }
    }

    /// Applies the hops of one swap, in order.
    pub fn hops(&mut self, hops: &Vec<SwapAction>, referral: &Option<String>, replies: &Vec<PoolReply>)
        requires
            old(self).wf(),
        ensures
            final(self).wf(),
            final(self)@ == after_hops(
                old(self)@,
                hops_of(hops@),
                text_of(*referral),
                replies_of(replies@),
            ),
    {
        let mut i: usize = 0;
        assert(hops_of(hops@).take(0) =~= Seq::<crate::action::HopView>::empty());
        while i < hops.len()
            invariant
                i <= hops.len(),
                self.wf(),
                self@ == after_hops(
                    old(self)@,
                    hops_of(hops@).take(i as int),
                    text_of(*referral),
                    replies_of(replies@),
                ),
            decreases hops.len() - i,
        {
            proof {
                let next = hops_of(hops@).take(i + 1);
                assert(next.drop_last() =~= hops_of(hops@).take(i as int));
                assert(next.last() == hops@[i as int]@);
            }
            self.hop(&hops[i], referral, replies);
            i += 1;
        }
        assert(hops_of(hops@).take(i as int) =~= hops_of(hops@));
    }

    /// Applies an operation that adds liquidity.
    #[verifier::loop_isolation(false)]
    pub fn liquidity(&mut self, operation: &AmlOperation, replies: &Vec<PoolReply>)
        requires
            old(self).wf(),
        ensures
            final(self).wf(),
            final(self)@ == after_liquidity(old(self)@, operation@, replies_of(replies@)),
    {
        if !self.is_running() {
            return ;
        }
        let request = match operation {
            AmlOperation::AddStableLiquidity { pool_id, amounts, min_shares } => {
                PoolRequest::AddStableLiquidity {
                    pool_id: *pool_id,
                    amounts: copy_amounts(amounts),
                    min_shares: *min_shares,
                }
            },
            AmlOperation::AddLiquidity { pool_id, amounts, min_amounts } => {
                PoolRequest::AddLiquidity {
                    pool_id: *pool_id,
                    amounts: copy_amounts(amounts),
                    min_amounts: copy_minimums(min_amounts),
                }
            },
            AmlOperation::Swap { .. } => {
                self.status = EngineStatus::Failed;
                return ;
            },
        };
        if self.consumed >= replies.len() {
            self.status = EngineStatus::Waiting(request);
            return ;
        }
        match &replies[self.consumed] {
            PoolReply::Minted { claim, tokens, used, shares } => {
                if tokens.len() != used.len() || !check_accepts(operation, used, *shares) {
                    self.status = EngineStatus::Failed;
                    return ;
                }
                let mut scratch = self.account.duplicate();
                let mut k: usize = 0;
                assert(tokens.deep_view().take(0) =~= Seq::<Seq<char>>::empty());
                while k < tokens.len()
                    invariant
                        k <= tokens.len(),
                        tokens.len() == used.len(),
                        tokens.deep_view().len() == tokens.len(),
                        scratch.wf(),
                        self.wf(),
                        self@ == old(self)@,
                        debited_all(
                            self.account@,
                            tokens.deep_view().take(k as int),
                            used@.take(k as int),
                        ) == Some(scratch@),
                    decreases tokens.len() - k,
                {
                    proof {
                        let next = tokens.deep_view().take(k + 1);
                        assert(next.drop_last() =~= tokens.deep_view().take(k as int));
                        assert(next.last() == tokens@[k as int]@);
                        assert(used@.take(k + 1).drop_last() =~= used@.take(k as int));
                        assert(used@.take(k + 1).last() == used@[k as int]);
                    }
                    match scratch.withdraw(&tokens[k], used[k]) {
                        Ok(_) => {},
                        Err(_) => {
                            proof {
                                lemma_debited_all_prefix(
                                    self.account@,
                                    tokens.deep_view(),
                                    used@,
                                    k + 1,
                                );
                            }
                            self.status = EngineStatus::Failed;
                            return ;
                        },
                    }
                    k += 1;
                }
                proof {
                    assert(tokens.deep_view().take(k as int) =~= tokens.deep_view());
                    assert(used@.take(k as int) =~= used@);
                }
                let held = scratch.balance(claim);
                if held > u128::MAX - *shares {
                    self.status = EngineStatus::Failed;
                    return ;
                }
                scratch.deposit(claim, *shares);
                let mut minted: Vec<(String, u128)> = Vec::new();
                minted.push((claim.clone(), *shares));
                assert(minted.deep_view() =~= seq![(claim@, *shares)]);
                self.account = scratch;
                self.result = ActionResult::Balances(minted);
                self.consumed = self.consumed + 1;
            },
            _ => {
                self.status = EngineStatus::Failed;
            },
        }
    }

    /// Applies one operation.
    pub fn action(&mut self, operation: &AmlOperation, outer: &Option<String>, replies: &Vec<PoolReply>)
        requires
            old(self).wf(),
        ensures
            final(self).wf(),
            final(self)@ == after_action(
                old(self)@,
                operation@,
                text_of(*outer),
                replies_of(replies@),
            ),
    {
        match operation {
            AmlOperation::Swap { actions, referral_id } => {
                match referral_id {
                    Some(_) => self.hops(actions, referral_id, replies),
                    None => self.hops(actions, outer, replies),
                }
            },
            _ => self.liquidity(operation, replies),
        }
    }

    /// Applies a list of operations, in order.
    pub fn run(&mut self, operations: &[AmlOperation], outer: &Option<String>, replies: &Vec<PoolReply>)
        requires
            old(self).wf(),
        ensures
            final(self).wf(),
            final(self)@ == after_actions(
                old(self)@,
                operations_of(operations@),
                text_of(*outer),
                replies_of(replies@),
            ),
    {
        let mut i: usize = 0;
        assert(operations_of(operations@).take(0) =~= Seq::<crate::action::OperationView>::empty());
        while i < operations.len()
            invariant
                i <= operations.len(),
                self.wf(),
                self@ == after_actions(
                    old(self)@,
                    operations_of(operations@).take(i as int),
                    text_of(*outer),
                    replies_of(replies@),
                ),
            decreases operations.len() - i,
        {
            proof {
                let next = operations_of(operations@).take(i + 1);
                assert(next.drop_last() =~= operations_of(operations@).take(i as int));
                assert(next.last() == operations@[i as int]@);
            }
            self.action(&operations[i], outer, replies);
            i += 1;
        }
        assert(operations_of(operations@).take(i as int) =~= operations_of(operations@));
    }

    /// Applies `actions` in order to `account`, starting with `initial_result`
    /// as the value in flight and taking the pools' answers from `replies`.
    /// Yields the last result where every operation was applied. Where one
    /// was not, the run fails, and the account stays as the last applied step
    /// left it: nothing is undone.
    pub fn execute(
        account: &mut VirtualAccount,
        referral_id: &Option<String>,
        actions: &[AmlOperation],
        initial_result: ActionResult,
        replies: &Vec<PoolReply>,
    ) -> (result: Result<ActionResult, PipelineError>)
        requires
            old(account).wf(),
        ensures
            final(account).wf(),
            ({
                let end = after_actions(
                    start(old(account)@, initial_result@),
                    operations_of(actions@),
                    text_of(*referral_id),
                    replies_of(replies@),
                );
                &&& final(account)@ == end.entries
                &&& match verdict(end) {
                    Ok(expected) => result matches Ok(last) && last@ == expected,
                    Err(e) => result matches Err(f) && f == e,
                }
            }),
    {
        let mut engine = ActionEngine::new(account.duplicate(), initial_result);
        engine.run(actions, referral_id, replies);
        let (after, result) = engine.finish();
        *account = after;
        result
    }

    /// Ends the run: the scratch account as the run left it, and the run's
    /// last result, or the failure.
    pub fn finish(self) -> (end: (VirtualAccount, Result<ActionResult, PipelineError>))
        requires
            self.wf(),
        ensures
            end.0.wf(),
            end.0@ == self@.entries,
            match verdict(self@) {
                Ok(result) => end.1 matches Ok(r) && r@ == result,
                Err(e) => end.1 matches Err(f) && f == e,
            },
    {
        let ActionEngine { account, result, consumed: _, status } = self;
        match status {
            EngineStatus::Running => (account, Ok(result)),
            _ => (account, Err(PipelineError::ActionPreconditionViolated)),
        }
    }

    /// Ends the run and hands out the request that it waits for, if it waits.
    pub fn into_awaited(self) -> (request: Option<PoolRequest>)
        ensures
            match awaited(self@) {
                Some(r) => request matches Some(q) && q@ == r,
                None => request is None,
            },
    {
        match self.status {
            EngineStatus::Waiting(request) => Some(request),
            _ => None,
        }
    }
}

} // verus!
