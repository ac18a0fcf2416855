use vstd::prelude::*;
use crate::error::PipelineError;
use crate::ledger::{
    balance_of, credited, debited, distinct_tokens, holds, lemma_credited, lemma_debited,
    lemma_positive, lemma_slot_unique, positive, total, Entries,
};

verus! {

/// The identifier of the scratch account; no real account can carry it.
pub const VIRTUAL_ACC: &'static str = "@";

/// A balance sheet that lives for one run of the pipeline and is never stored.
pub struct VirtualAccount {
    tokens: Vec<(String, u128)>,
}

impl View for VirtualAccount {
    type V = Entries;

    open spec fn view(&self) -> Entries {
        self.entries()
    }
}

impl VirtualAccount {
    /// The entries of the account, oldest first.
    pub closed spec fn entries(&self) -> Entries {
        self.tokens.deep_view()
    }

    /// No token has two entries.
    pub open spec fn wf(&self) -> bool {
        distinct_tokens(self@)
    }

    /// An account without any balance.
    pub fn new() -> (account: Self)
        ensures
            account.wf(),
            account@ == Seq::<(Seq<char>, u128)>::empty(),
    {
        let account = VirtualAccount { tokens: Vec::new() };
        assert(account@ =~= Seq::<(Seq<char>, u128)>::empty());
        account
    }

    /// The identifier of the account, which is the same for every instance.
    pub fn account_id(&self) -> (id: &'static str)
        ensures
            id@ == VIRTUAL_ACC@,
    {
        VIRTUAL_ACC
    }

    /// The position of the entry for `token`.
    fn position(&self, token: &String) -> (found: Option<usize>)
        ensures
            match found {
                Some(i) => i < self@.len() && self@[i as int].0 == token@,
                None => !holds(self@, token@),
            },
    {
        let mut i: usize = 0;
        while i < self.tokens.len()
            invariant
                i <= self.tokens.len(),
                self@.len() == self.tokens.len(),
                forall|k: int| 0 <= k < i ==> (#[trigger] self@[k]).0 != token@,
                forall|k: int| 0 <= k < self.tokens.len() ==> (#[trigger] self@[k]).0 == self.tokens[k].0@,
            decreases self.tokens.len() - i,
        {
            if self.tokens[i].0 == *token {
                return Some(i);
            }
            i += 1;
        }
        None
    }

    /// The balance held for `token`, zero where the account never saw it.
    pub fn balance(&self, token: &String) -> (amount: u128)
        requires
            self.wf(),
        ensures
            amount == balance_of(self@, token@),
    {
        match self.position(token) {
            Some(i) => {
                proof {
                    lemma_slot_unique(self@, token@, i as int);
                }
                self.tokens[i].1
            },
            None => 0,
        }
    }

    /// Adds `amount` to the balance of `token`.
    pub fn deposit(&mut self, token: &String, amount: u128)
        requires
            old(self).wf(),
            balance_of(old(self)@, token@) + amount <= u128::MAX,
        ensures
            final(self).wf(),
            final(self)@ == credited(old(self)@, token@, amount),
            balance_of(final(self)@, token@) == balance_of(old(self)@, token@) + amount,
            forall|other: Seq<char>|
                other != token@ ==> balance_of(final(self)@, other) == balance_of(
                    old(self)@,
                    other,
                ),
            total(final(self)@) == total(old(self)@) + amount,
    {
        proof {
            lemma_credited(self@, token@, amount);
        }
        match self.position(token) {
            Some(i) => {
                proof {
                    lemma_slot_unique(self@, token@, i as int);
                }
                let balance = self.tokens[i].1;
                self.tokens.set(i, (token.clone(), balance + amount));
                assert(self@ =~= credited(old(self)@, token@, amount));
            },
            None => {
                self.tokens.push((token.clone(), amount));
                assert(self@ =~= credited(old(self)@, token@, amount));
            },
        }
    }

    /// Takes `amount` out of the balance of `token`. Fails, changing nothing,
    /// where the account holds less than that.
    pub fn withdraw(&mut self, token: &String, amount: u128) -> (done: Result<(), PipelineError>)
        requires
            old(self).wf(),
        ensures
            final(self).wf(),
            match debited(old(self)@, token@, amount) {
                Some(after) => done is Ok && final(self)@ == after,
                None => done == Err::<(), PipelineError>(PipelineError::ActionPreconditionViolated)
                    && final(self)@ == old(self)@,
            },
    {
        proof {
            lemma_debited(self@, token@, amount);
        }
        match self.position(token) {
            Some(i) => {
                proof {
                    lemma_slot_unique(self@, token@, i as int);
                }
                let balance = self.tokens[i].1;
                if balance < amount {
                    return Err(PipelineError::ActionPreconditionViolated);
                }
                self.tokens.set(i, (token.clone(), balance - amount));
                assert(self@ =~= debited(old(self)@, token@, amount).unwrap());
                Ok(())
            },
            None => Err(PipelineError::ActionPreconditionViolated),
        }
    }

    /// A second account with the same entries.
    pub fn duplicate(&self) -> (copy: Self)
        ensures
            copy@ == self@,
    {
        let mut tokens: Vec<(String, u128)> = Vec::new();
        let mut i: usize = 0;
        while i < self.tokens.len()
            invariant
                i <= self.tokens.len(),
                tokens.len() == i,
                self@.len() == self.tokens.len(),
                forall|k: int| 0 <= k < self.tokens.len() ==> #[trigger] self@[k] == (
                    self.tokens[k].0@,
                    self.tokens[k].1,
                ),
                forall|k: int| 0 <= k < i ==> (#[trigger] tokens[k]).0@ == self.tokens[k].0@
                    && tokens[k].1 == self.tokens[k].1,
            decreases self.tokens.len() - i,
        {
            tokens.push((self.tokens[i].0.clone(), self.tokens[i].1));
            i += 1;
        }
        let copy = VirtualAccount { tokens };
        assert(copy@ =~= self@);
        copy
    }

    /// Hands out every balance above zero, oldest first, and empties the
    /// account.
    pub fn drain(&mut self) -> (out: Vec<(String, u128)>)
        requires
            old(self).wf(),
        ensures
            final(self).wf(),
            final(self)@ == Seq::<(Seq<char>, u128)>::empty(),
            out.deep_view() == positive(old(self)@),
            total(out.deep_view()) == total(old(self)@),
    {
        proof {
            lemma_positive(self@);
        }
        let mut out: Vec<(String, u128)> = Vec::new();
        let mut i: usize = 0;
        assert(self@.take(0) =~= Seq::<(Seq<char>, u128)>::empty());
        while i < self.tokens.len()
            invariant
                i <= self.tokens.len(),
                self@ == old(self)@,
                self@.len() == self.tokens.len(),
                forall|k: int| 0 <= k < self.tokens.len() ==> #[trigger] self@[k] == (
                    self.tokens[k].0@,
                    self.tokens[k].1,
                ),
                out.deep_view() == positive(self@.take(i as int)),
            decreases self.tokens.len() - i,
        {
            let amount = self.tokens[i].1;
            proof {
                let next = self@.take(i + 1);
                assert(next.drop_last() =~= self@.take(i as int));
                assert(next.last() == self@[i as int]);
            }
            if amount > 0 {
                let ghost before = out.deep_view();
                out.push((self.tokens[i].0.clone(), amount));
                assert(out.deep_view() =~= before.push(self@[i as int]));
            }
            i += 1;
        }
        assert(self@.take(i as int) =~= self@);
        self.tokens.clear();
        assert(self@ =~= Seq::<(Seq<char>, u128)>::empty());
        out
    }
}

} // verus!
