use vstd::prelude::*;
use crate::action::{HopView, OperationView, ReplyView, ResultView};
use crate::engine_model::{
    after_action, after_actions, after_hop, after_hops, after_liquidity, debited_all, hop_amount,
    referral_for, EngineView,
};
use crate::ledger::{distinct_tokens, lemma_credited, lemma_debited, total, Entries};

verus! {

/// The sum of a list of amounts.
pub open spec fn sum_of(amounts: Seq<u128>) -> nat
    decreases amounts.len(),
{
    if amounts.len() == 0 {
        0
    } else {
        sum_of(amounts.drop_last()) + amounts.last() as nat
    }
}

/// Taking several amounts out keeps the tokens distinct and lowers the total
/// by their sum.
pub proof fn lemma_debited_all(entries: Entries, tokens: Seq<Seq<char>>, used: Seq<u128>)
    requires
        distinct_tokens(entries),
        tokens.len() == used.len(),
    ensures
        debited_all(entries, tokens, used) matches Some(after) ==> distinct_tokens(after) && total(
            after,
        ) + sum_of(used) == total(entries),
    decreases tokens.len(),
{
    if tokens.len() > 0 {
        lemma_debited_all(entries, tokens.drop_last(), used.drop_last());
        match debited_all(entries, tokens.drop_last(), used.drop_last()) {
            Some(rest) => {
                lemma_debited(rest, tokens.last(), used.last());
            },
            None => {},
        }
    }
}

/// A hop that is applied takes its input out of the account and puts the
/// pool's output in, and nothing else: the total changes by the difference
/// of the two, the output becomes the value in flight, and one answer is
/// used up.
pub proof fn law_hop_moves_exactly(
    s: EngineView,
    hop: HopView,
    referral: Option<Seq<char>>,
    replies: Seq<ReplyView>,
)
    requires
        distinct_tokens(s.entries),
        s.status is Running,
        after_hop(s, hop, referral, replies).status is Running,
    ensures
        hop_amount(hop, s.result) is Some,
        s.consumed < replies.len(),
        replies[s.consumed as int] is Swapped,
        ({
            let after = after_hop(s, hop, referral, replies);
            let amount_in = hop_amount(hop, s.result).unwrap();
            let amount_out = replies[s.consumed as int]->amount_out;
            &&& amount_out >= hop.min_amount_out
            &&& total(after.entries) + amount_in == total(s.entries) + amount_out
            &&& after.result == ResultView::Amount(amount_out)
            &&& after.consumed == s.consumed + 1
            &&& distinct_tokens(after.entries)
        }),
{
    let amount_in = hop_amount(hop, s.result).unwrap();
    lemma_debited(s.entries, hop.token_in, amount_in);
    let entries = crate::ledger::debited(s.entries, hop.token_in, amount_in).unwrap();
    let amount_out = replies[s.consumed as int]->amount_out;
    lemma_credited(entries, hop.token_out, amount_out);
}

/// An addition of liquidity that is applied takes out of the account what
/// the pool used and puts the minted shares in, and nothing else.
pub proof fn law_liquidity_moves_exactly(
    s: EngineView,
    operation: OperationView,
    replies: Seq<ReplyView>,
)
    requires
        distinct_tokens(s.entries),
        s.status is Running,
        after_liquidity(s, operation, replies).status is Running,
    ensures
        s.consumed < replies.len(),
        replies[s.consumed as int] is Minted,
        ({
            let after = after_liquidity(s, operation, replies);
            let used = replies[s.consumed as int]->used;
            let shares = replies[s.consumed as int]->shares;
            let claim = replies[s.consumed as int]->claim;
            &&& total(after.entries) + sum_of(used) == total(s.entries) + shares
            &&& after.result == ResultView::Balances(seq![(claim, shares)])
            &&& after.consumed == s.consumed + 1
            &&& distinct_tokens(after.entries)
        }),
{
    let tokens = replies[s.consumed as int]->tokens;
    let used = replies[s.consumed as int]->used;
    let shares = replies[s.consumed as int]->shares;
    let claim = replies[s.consumed as int]->claim;
    lemma_debited_all(s.entries, tokens, used);
    let entries = debited_all(s.entries, tokens, used).unwrap();
    lemma_credited(entries, claim, shares);
}

/// No hop makes the account hold a token twice.
pub proof fn lemma_hop_keeps_tokens_distinct(
    s: EngineView,
    hop: HopView,
    referral: Option<Seq<char>>,
    replies: Seq<ReplyView>,
)
    requires
        distinct_tokens(s.entries),
    ensures
        distinct_tokens(after_hop(s, hop, referral, replies).entries),
{
    if s.status is Running && after_hop(s, hop, referral, replies).status is Running {
        law_hop_moves_exactly(s, hop, referral, replies);
    }
}

/// No chain of hops makes the account hold a token twice.
pub proof fn lemma_hops_keep_tokens_distinct(
    s: EngineView,
    hops: Seq<HopView>,
    referral: Option<Seq<char>>,
    replies: Seq<ReplyView>,
)
    requires
        distinct_tokens(s.entries),
    ensures
        distinct_tokens(after_hops(s, hops, referral, replies).entries),
    decreases hops.len(),
{
    if hops.len() > 0 {
        lemma_hops_keep_tokens_distinct(s, hops.drop_last(), referral, replies);
        lemma_hop_keeps_tokens_distinct(
            after_hops(s, hops.drop_last(), referral, replies),
            hops.last(),
            referral,
            replies,
        );
    }
}

/// No operation makes the account hold a token twice.
pub proof fn lemma_action_keeps_tokens_distinct(
    s: EngineView,
    operation: OperationView,
    outer: Option<Seq<char>>,
    replies: Seq<ReplyView>,
)
    requires
        distinct_tokens(s.entries),
    ensures
        distinct_tokens(after_action(s, operation, outer, replies).entries),
{
    match operation {
        OperationView::Swap { hops, referral_id } => {
            lemma_hops_keep_tokens_distinct(s, hops, referral_for(referral_id, outer), replies);
        },
        _ => {
            if s.status is Running && after_liquidity(s, operation, replies).status is Running {
                law_liquidity_moves_exactly(s, operation, replies);
            }
        },
    }
}

/// Whatever the operations and the pools' answers, the scratch account never
/// holds a token twice.
pub proof fn law_run_keeps_tokens_distinct(
    s: EngineView,
    operations: Seq<OperationView>,
    outer: Option<Seq<char>>,
    replies: Seq<ReplyView>,
)
    requires
        distinct_tokens(s.entries),
    ensures
        distinct_tokens(after_actions(s, operations, outer, replies).entries),
    decreases operations.len(),
{
    if operations.len() > 0 {
        law_run_keeps_tokens_distinct(s, operations.drop_last(), outer, replies);
        lemma_action_keeps_tokens_distinct(
            after_actions(s, operations.drop_last(), outer, replies),
            operations.last(),
            outer,
            replies,
        );
    }
}

/// Once a step has failed or waits, the hops of a swap change nothing.
pub proof fn lemma_stopped_hops(
    s: EngineView,
    hops: Seq<HopView>,
    referral: Option<Seq<char>>,
    replies: Seq<ReplyView>,
)
    requires
        !(s.status is Running),
    ensures
        after_hops(s, hops, referral, replies) == s,
    decreases hops.len(),
{
    if hops.len() > 0 {
        lemma_stopped_hops(s, hops.drop_last(), referral, replies);
    }
}

/// Once a step has failed or waits, a further operation changes nothing.
pub proof fn lemma_stopped_action(
    s: EngineView,
    operation: OperationView,
    outer: Option<Seq<char>>,
    replies: Seq<ReplyView>,
)
    requires
        !(s.status is Running),
    ensures
        after_action(s, operation, outer, replies) == s,
{
    match operation {
        OperationView::Swap { hops, referral_id } => {
            lemma_stopped_hops(s, hops, referral_for(referral_id, outer), replies);
        },
        _ => {},
    }
}

/// Once a step has failed or waits for its answer, the operations that
/// follow change nothing: the scratch account stays exactly as the last
/// applied step left it.
pub proof fn law_stopped_engine_stays(
    s: EngineView,
    operations: Seq<OperationView>,
    outer: Option<Seq<char>>,
    replies: Seq<ReplyView>,
)
    requires
        !(s.status is Running),
    ensures
        after_actions(s, operations, outer, replies) == s,
    decreases operations.len(),
{
    if operations.len() > 0 {
        law_stopped_engine_stays(s, operations.drop_last(), outer, replies);
        lemma_stopped_action(s, operations.last(), outer, replies);
    }
}

/// A step is applied whole or not at all: a hop or an addition of liquidity
/// after which the run does not go on has left the scratch account, the
/// value in flight and the count of used answers exactly as they were.
pub proof fn law_failed_step_keeps_account(
    s: EngineView,
    hop: HopView,
    operation: OperationView,
    referral: Option<Seq<char>>,
    replies: Seq<ReplyView>,
)
    ensures
        !(after_hop(s, hop, referral, replies).status is Running) ==> {
            &&& after_hop(s, hop, referral, replies).entries == s.entries
            &&& after_hop(s, hop, referral, replies).result == s.result
            &&& after_hop(s, hop, referral, replies).consumed == s.consumed
        },
        !(after_liquidity(s, operation, replies).status is Running) ==> {
            &&& after_liquidity(s, operation, replies).entries == s.entries
            &&& after_liquidity(s, operation, replies).result == s.result
            &&& after_liquidity(s, operation, replies).consumed == s.consumed
        },
{
}

/// The operations are applied in order, each starting from what the one
/// before it left: a run over a list with one more operation is the run over
/// the list followed by that operation.
pub proof fn law_actions_apply_in_order(
    s: EngineView,
    operations: Seq<OperationView>,
    next: OperationView,
    outer: Option<Seq<char>>,
    replies: Seq<ReplyView>,
)
    ensures
        after_actions(s, operations.push(next), outer, replies) == after_action(
            after_actions(s, operations, outer, replies),
            next,
            outer,
            replies,
        ),
{
    assert(operations.push(next).drop_last() =~= operations);
}

/// A hop that does not end up waiting reads no answer beyond those given:
/// with further answers appended it comes out the same.
pub proof fn lemma_hop_ignores_later_answers(
    s: EngineView,
    hop: HopView,
    referral: Option<Seq<char>>,
    replies: Seq<ReplyView>,
    more: Seq<ReplyView>,
)
    requires
        !(after_hop(s, hop, referral, replies).status is Waiting),
    ensures
        after_hop(s, hop, referral, replies + more) == after_hop(s, hop, referral, replies),
{
    if s.status is Running && s.consumed < replies.len() {
        assert((replies + more)[s.consumed as int] == replies[s.consumed as int]);
    }
}

/// A chain of hops that does not end up waiting comes out the same with
/// further answers appended.
pub proof fn lemma_hops_ignore_later_answers(
    s: EngineView,
    hops: Seq<HopView>,
    referral: Option<Seq<char>>,
    replies: Seq<ReplyView>,
    more: Seq<ReplyView>,
)
    requires
        !(after_hops(s, hops, referral, replies).status is Waiting),
    ensures
        after_hops(s, hops, referral, replies + more) == after_hops(s, hops, referral, replies),
    decreases hops.len(),
{
    if hops.len() > 0 {
        let before = after_hops(s, hops.drop_last(), referral, replies);
        if before.status is Waiting {
            assert(after_hop(before, hops.last(), referral, replies) == before);
        }
        lemma_hops_ignore_later_answers(s, hops.drop_last(), referral, replies, more);
        lemma_hop_ignores_later_answers(before, hops.last(), referral, replies, more);
    }
}

/// An operation that does not end up waiting comes out the same with
/// further answers appended.
pub proof fn lemma_action_ignores_later_answers(
    s: EngineView,
    operation: OperationView,
    outer: Option<Seq<char>>,
    replies: Seq<ReplyView>,
    more: Seq<ReplyView>,
)
    requires
        !(after_action(s, operation, outer, replies).status is Waiting),
    ensures
        after_action(s, operation, outer, replies + more) == after_action(
            s,
            operation,
            outer,
            replies,
        ),
{
    match operation {
        OperationView::Swap { hops, referral_id } => {
            lemma_hops_ignore_later_answers(
                s,
                hops,
                referral_for(referral_id, outer),
                replies,
                more,
            );
        },
        _ => {
            if s.status is Running && s.consumed < replies.len() {
                assert((replies + more)[s.consumed as int] == replies[s.consumed as int]);
            }
        },
    }
}

/// A run that does not end up waiting has read no answer beyond those
/// given: with further answers appended it comes out the same.
pub proof fn law_run_ignores_later_answers(
    s: EngineView,
    operations: Seq<OperationView>,
    outer: Option<Seq<char>>,
    replies: Seq<ReplyView>,
    more: Seq<ReplyView>,
)
    requires
        !(after_actions(s, operations, outer, replies).status is Waiting),
    ensures
        after_actions(s, operations, outer, replies + more) == after_actions(
            s,
            operations,
            outer,
            replies,
        ),
    decreases operations.len(),
{
    if operations.len() > 0 {
        let before = after_actions(s, operations.drop_last(), outer, replies);
        if before.status is Waiting {
            lemma_stopped_action(before, operations.last(), outer, replies);
        }
        law_run_ignores_later_answers(s, operations.drop_last(), outer, replies, more);
        lemma_action_ignores_later_answers(before, operations.last(), outer, replies, more);
    }
}

/// Whether the state can arise in a run over `replies`: it has used no more
/// answers than there are, and where it waits it has used them all.
pub open spec fn in_step(s: EngineView, replies: Seq<ReplyView>) -> bool {
    s.consumed <= replies.len() && (s.status is Waiting ==> s.consumed == replies.len())
}

/// A chain of hops keeps the count of used answers in step.
pub proof fn lemma_hops_stay_in_step(
    s: EngineView,
    hops: Seq<HopView>,
    referral: Option<Seq<char>>,
    replies: Seq<ReplyView>,
)
    requires
        in_step(s, replies),
    ensures
        in_step(after_hops(s, hops, referral, replies), replies),
    decreases hops.len(),
{
    if hops.len() > 0 {
        lemma_hops_stay_in_step(s, hops.drop_last(), referral, replies);
    }
}

/// A run that waits for an answer has used every answer given so far, and no
/// run uses more answers than there are.
pub proof fn law_waiting_run_used_every_answer(
    s: EngineView,
    operations: Seq<OperationView>,
    outer: Option<Seq<char>>,
    replies: Seq<ReplyView>,
)
    requires
        in_step(s, replies),
    ensures
        in_step(after_actions(s, operations, outer, replies), replies),
    decreases operations.len(),
{
    if operations.len() > 0 {
        law_waiting_run_used_every_answer(s, operations.drop_last(), outer, replies);
        let before = after_actions(s, operations.drop_last(), outer, replies);
        match operations.last() {
            OperationView::Swap { hops, referral_id } => {
                lemma_hops_stay_in_step(before, hops, referral_for(referral_id, outer), replies);
            },
            _ => {},
        }
    }
}

} // verus!
