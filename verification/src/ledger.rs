use vstd::prelude::*;

verus! {

/// The mathematical model of a balance sheet: its entries in the order in
/// which their tokens were first seen, each a token name with its balance.
pub type Entries = Seq<(Seq<char>, u128)>;

/// Some entry of `entries` is for `token`.
pub open spec fn holds(entries: Entries, token: Seq<char>) -> bool {
    exists|i: int| 0 <= i < entries.len() && (#[trigger] entries[i]).0 == token
}

/// No token has two entries.
pub open spec fn distinct_tokens(entries: Entries) -> bool {
    forall|i: int, j: int|
        0 <= i < j < entries.len() ==> (#[trigger] entries[i]).0 != (#[trigger] entries[j]).0
}

/// The position of the entry for `token`, where there is one.
pub open spec fn slot_of(entries: Entries, token: Seq<char>) -> int {
    choose|i: int| 0 <= i < entries.len() && (#[trigger] entries[i]).0 == token
}

/// The balance recorded for `token`; zero where the sheet has no entry for it.
pub open spec fn balance_of(entries: Entries, token: Seq<char>) -> nat {
    if holds(entries, token) {
        entries[slot_of(entries, token)].1 as nat
    } else {
        0
    }
}

/// The sum of all balances.
pub open spec fn total(entries: Entries) -> nat
    decreases entries.len(),
{
    if entries.len() == 0 {
        0
    } else {
        total(entries.drop_last()) + entries.last().1 as nat
    }
}

/// The sheet after `amount` of `token` has been added: the token's entry
/// grows in place, or a new entry is appended.
pub open spec fn credited(entries: Entries, token: Seq<char>, amount: u128) -> Entries {
    if holds(entries, token) {
        let i = slot_of(entries, token);
        entries.update(i, (token, (entries[i].1 + amount) as u128))
    } else {
        entries.push((token, amount))
    }
}

/// The sheet after `amount` of `token` has been taken out, or `None` where
/// the token has no entry or its balance is too small.
pub open spec fn debited(entries: Entries, token: Seq<char>, amount: u128) -> Option<Entries> {
    if holds(entries, token) && entries[slot_of(entries, token)].1 >= amount {
        let i = slot_of(entries, token);
        Some(entries.update(i, (token, (entries[i].1 - amount) as u128)))
    } else {
        None
    }
}

/// The entries with a balance above zero, in their order.
pub open spec fn positive(entries: Entries) -> Entries
    decreases entries.len(),
{
    if entries.len() == 0 {
        Seq::empty()
    } else if entries.last().1 > 0 {
        positive(entries.drop_last()).push(entries.last())
    } else {
        positive(entries.drop_last())
    }
}

/// In a sheet without repeated tokens the entry for a token is found at the
/// one position that carries it.
pub proof fn lemma_slot_unique(entries: Entries, token: Seq<char>, i: int)
    requires
        distinct_tokens(entries),
        0 <= i < entries.len(),
        entries[i].0 == token,
    ensures
        holds(entries, token),
        slot_of(entries, token) == i,
        balance_of(entries, token) == entries[i].1,
{
    let k = slot_of(entries, token);
    assert(0 <= k < entries.len() && entries[k].0 == token);
    if k < i {
        assert(entries[k].0 != entries[i].0);
    } else if i < k {
        assert(entries[i].0 != entries[k].0);
    }
}

/// Replacing one balance changes the total by the difference.
pub proof fn lemma_total_update(entries: Entries, i: int, token: Seq<char>, balance: u128)
    requires
        0 <= i < entries.len(),
    ensures
        total(entries.update(i, (token, balance))) + entries[i].1 == total(entries) + balance,
    decreases entries.len(),
{
    let updated = entries.update(i, (token, balance));
    if i == entries.len() - 1 {
        assert(updated.drop_last() =~= entries.drop_last());
    } else {
        assert(updated.drop_last() =~= entries.drop_last().update(i, (token, balance)));
        lemma_total_update(entries.drop_last(), i, token, balance);
    }
}

/// Appending an entry adds its balance to the total.
pub proof fn lemma_total_push(entries: Entries, entry: (Seq<char>, u128))
    ensures
        total(entries.push(entry)) == total(entries) + entry.1,
{
    assert(entries.push(entry).drop_last() =~= entries);
}

/// Crediting keeps the tokens distinct, raises the token's balance by the
/// amount, leaves every other balance alone and raises the total by the amount.
pub proof fn lemma_credited(entries: Entries, token: Seq<char>, amount: u128)
    requires
        distinct_tokens(entries),
        balance_of(entries, token) + amount <= u128::MAX,
    ensures
        distinct_tokens(credited(entries, token, amount)),
        balance_of(credited(entries, token, amount), token) == balance_of(entries, token) + amount,
        forall|other: Seq<char>|
            other != token ==> balance_of(credited(entries, token, amount), other) == balance_of(
                entries,
                other,
            ),
        total(credited(entries, token, amount)) == total(entries) + amount,
{
    let after = credited(entries, token, amount);
    if holds(entries, token) {
        let i = slot_of(entries, token);
        assert(0 <= i < entries.len() && entries[i].0 == token);
        assert(after[i].0 == token);
        assert forall|a: int, b: int| 0 <= a < b < after.len() implies (#[trigger] after[a]).0 != (
        #[trigger] after[b]).0 by {
            assert(after[a].0 == entries[a].0);
            assert(after[b].0 == entries[b].0);
        }
        lemma_slot_unique(after, token, i);
        lemma_total_update(entries, i, token, (entries[i].1 + amount) as u128);
        assert forall|other: Seq<char>| other != token implies balance_of(after, other)
            == balance_of(entries, other) by {
            lemma_same_tokens_other(entries, after, i, other);
        }
    } else {
        let n = entries.len() as int;
        assert(after[n].0 == token);
        assert forall|a: int, b: int| 0 <= a < b < after.len() implies (#[trigger] after[a]).0 != (
        #[trigger] after[b]).0 by {
            assert(after[a] == entries[a]);
            if b < n {
                assert(after[b] == entries[b]);
            } else {
                assert(entries[a].0 != token);
            }
        }
        lemma_slot_unique(after, token, n);
        lemma_total_push(entries, (token, amount));
        assert forall|other: Seq<char>| other != token implies balance_of(after, other)
            == balance_of(entries, other) by {
            if holds(entries, other) {
                let k = slot_of(entries, other);
                assert(after[k] == entries[k]);
                lemma_slot_unique(after, other, k);
            } else {
                if holds(after, other) {
                    let k = slot_of(after, other);
                    assert(k < n);
                    assert(entries[k] == after[k]);
                }
            }
        }
    }
}

/// Where two sheets differ at one position only, and carry the same token
/// there, every other token has the same balance in both.
pub proof fn lemma_same_tokens_other(before: Entries, after: Entries, i: int, other: Seq<char>)
    requires
        distinct_tokens(before),
        distinct_tokens(after),
        before.len() == after.len(),
        0 <= i < before.len(),
        before[i].0 == after[i].0,
        other != before[i].0,
        forall|k: int| 0 <= k < before.len() && k != i ==> before[k] == after[k],
    ensures
        balance_of(after, other) == balance_of(before, other),
{
    if holds(before, other) {
        let k = slot_of(before, other);
        assert(0 <= k < before.len() && before[k].0 == other);
        assert(after[k] == before[k]);
        lemma_slot_unique(after, other, k);
    } else if holds(after, other) {
        let k = slot_of(after, other);
        assert(0 <= k < after.len() && after[k].0 == other);
        assert(before[k] == after[k]);
    }
}

/// Debiting, where it succeeds, keeps the tokens distinct, lowers the token's
/// balance by the amount, leaves every other balance alone and lowers the
/// total by the amount.
pub proof fn lemma_debited(entries: Entries, token: Seq<char>, amount: u128)
    requires
        distinct_tokens(entries),
    ensures
        debited(entries, token, amount) is Some <==> holds(entries, token) && balance_of(
            entries,
            token,
        ) >= amount,
        debited(entries, token, amount) matches Some(after) ==> {
            &&& distinct_tokens(after)
            &&& after.len() == entries.len()
            &&& balance_of(after, token) + amount == balance_of(entries, token)
            &&& forall|other: Seq<char>|
                other != token ==> balance_of(after, other) == balance_of(entries, other)
            &&& total(after) + amount == total(entries)
        },
{
    if debited(entries, token, amount) is Some {
        let after = debited(entries, token, amount).unwrap();
        let i = slot_of(entries, token);
        assert(0 <= i < entries.len() && entries[i].0 == token);
        assert(after[i].0 == token);
        assert forall|a: int, b: int| 0 <= a < b < after.len() implies (#[trigger] after[a]).0 != (
        #[trigger] after[b]).0 by {
            assert(after[a].0 == entries[a].0);
            assert(after[b].0 == entries[b].0);
        }
        lemma_slot_unique(after, token, i);
        lemma_total_update(entries, i, token, (entries[i].1 - amount) as u128);
        assert forall|other: Seq<char>| other != token implies balance_of(after, other)
            == balance_of(entries, other) by {
            lemma_same_tokens_other(entries, after, i, other);
        }
    }
}

/// Dropping the empty entries keeps the total, the order and the distinctness,
/// and leaves no empty entry behind.
pub proof fn lemma_positive(entries: Entries)
    ensures
        total(positive(entries)) == total(entries),
        positive(entries).len() <= entries.len(),
        forall|k: int| 0 <= k < positive(entries).len() ==> (#[trigger] positive(entries)[k]).1 > 0,
        forall|k: int|
            0 <= k < positive(entries).len() ==> exists|i: int|
                k <= i < entries.len() && entries[i] == #[trigger] positive(entries)[k],
        distinct_tokens(entries) ==> distinct_tokens(positive(entries)),
    decreases entries.len(),
{
    if entries.len() > 0 {
        let rest = entries.drop_last();
        let kept = positive(rest);
        lemma_positive(rest);
        let out = positive(entries);
        if entries.last().1 > 0 {
            lemma_total_push(kept, entries.last());
        }
        assert forall|k: int| 0 <= k < out.len() implies exists|i: int|
            k <= i < entries.len() && entries[i] == #[trigger] out[k] by {
            if k < kept.len() {
                assert(out[k] == kept[k]);
                let i = choose|i: int| k <= i < rest.len() && rest[i] == kept[k];
                assert(entries[i] == out[k]);
            } else {
                assert(entries[entries.len() - 1] == out[k]);
            }
        }
        if distinct_tokens(entries) {
            assert(distinct_tokens(rest)) by {
                assert forall|a: int, b: int| 0 <= a < b < rest.len() implies (
                #[trigger] rest[a]).0 != (#[trigger] rest[b]).0 by {
                    assert(rest[a] == entries[a]);
                    assert(rest[b] == entries[b]);
                }
            }
            assert forall|a: int, b: int| 0 <= a < b < out.len() implies (#[trigger] out[a]).0 != (
            #[trigger] out[b]).0 by {
                if b < kept.len() {
                    assert(out[a] == kept[a]);
                    assert(out[b] == kept[b]);
                } else {
                    assert(out[a] == kept[a]);
                    let i = choose|i: int| a <= i < rest.len() && rest[i] == kept[a];
                    assert(entries[i] == rest[i]);
                    assert(out[b] == entries[entries.len() - 1]);
                    assert(entries[i].0 != entries[entries.len() - 1].0);
                }
            }
        }
    }
}

} // verus!
