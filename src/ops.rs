//! The state changes. Each runs its check first and changes nothing when the
//! check refuses.

use std::collections::BTreeMap;
use vstd::prelude::*;
use crate::contract::{same_but_approvals, same_but_balances, same_but_metadata, Contract, TokenMetadata};
use crate::model::{
    after_approval, after_burn, after_mint, after_step, after_transfer, apply_steps,
    balance_in, balances_after_batch, batch_outcome, batch_result, burn_error, first_step_error,
    lemma_apply_steps_error_extends,
    mint_error, outcome, step_error, transfer_error, Balances, Step,
};
use crate::types::{AccountId, Balance, Error, TokenId};

verus! {

impl Contract {
    /// Moves `amount` of `token` from `from` to `to`.
    pub fn safe_transfer_from(
        &mut self,
        from: AccountId,
        to: AccountId,
        token: TokenId,
        amount: Balance,
    ) -> (r: Result<(), Error>)
        ensures
            r == outcome(
                transfer_error(
                    old(self).ledger(),
                    old(self).approval_map(),
                    old(self).caller(),
                    from,
                    to,
                    token,
                    amount,
                ),
            ),
            final(self).ledger() == if r is Ok {
                after_transfer(old(self).ledger(), from, to, token, amount)
            } else {
                old(self).ledger()
            },
            same_but_balances(old(self), final(self)),
    {
        self.check_transfer_from(from, to, token, amount)?;
        let ghost l = self.ledger();
        let mut kv = match self.balances.remove(&token) {
            Some(kv) => kv,
            None => BTreeMap::new(),
        };
        let from_balance = match kv.get(&from) {
            Some(v) => *v,
            None => 0,
        };
        kv.insert(from, from_balance - amount);
        let to_balance = match kv.get(&to) {
            Some(v) => *v,
            None => 0,
        };
        kv.insert(to, to_balance.saturating_add(amount));
        self.balances.insert(token, kv);
        assert(self.ledger() =~= after_transfer(l, from, to, token, amount));
        Ok(())
    }

    /// Creates `token`, held by `to` alone.
    pub fn mint(&mut self, to: AccountId, token: TokenId, amount: Balance) -> (r: Result<(), Error>)
        ensures
            r == outcome(mint_error(old(self).ledger(), to, token, amount)),
            final(self).ledger() == if r is Ok {
                after_mint(old(self).ledger(), to, token, amount)
            } else {
                old(self).ledger()
            },
            same_but_balances(old(self), final(self)),
    {
        self.check_mint(to, token, amount)?;
        let ghost l = self.ledger();
        let mut kv: BTreeMap<AccountId, Balance> = BTreeMap::new();
        kv.insert(to, amount);
        self.balances.insert(token, kv);
        assert(self.ledger() =~= after_mint(l, to, token, amount));
        Ok(())
    }

    /// Removes `amount` of `token` from `from`.
    pub fn burn(&mut self, from: AccountId, token: TokenId, amount: Balance) -> (r: Result<
        (),
        Error,
    >)
        ensures
            r == outcome(
                burn_error(
                    old(self).ledger(),
                    old(self).approval_map(),
                    old(self).caller(),
                    from,
                    token,
                    amount,
                ),
            ),
            final(self).ledger() == if r is Ok {
                after_burn(old(self).ledger(), from, token, amount)
            } else {
                old(self).ledger()
            },
            same_but_balances(old(self), final(self)),
    {
        self.check_burn(from, token, amount)?;
        let ghost l = self.ledger();
        let mut kv = match self.balances.remove(&token) {
            Some(kv) => kv,
            None => BTreeMap::new(),
        };
        let from_balance = match kv.get(&from) {
            Some(v) => *v,
            None => 0,
        };
        kv.insert(from, from_balance - amount);
        self.balances.insert(token, kv);
        assert(self.ledger() =~= after_burn(l, from, token, amount));
        Ok(())
    }

    /// One step of a batch.
    pub fn apply_step(&mut self, step: Step, token: TokenId, amount: Balance) -> (r: Result<
        (),
        Error,
    >)
        ensures
            r == outcome(
                step_error(
                    step,
                    old(self).ledger(),
                    old(self).approval_map(),
                    old(self).caller(),
                    token,
                    amount,
                ),
            ),
            final(self).ledger() == if r is Ok {
                after_step(step, old(self).ledger(), token, amount)
            } else {
                old(self).ledger()
            },
            same_but_balances(old(self), final(self)),
    {
        match step {
            Step::Transfer(from, to) => self.safe_transfer_from(from, to, token, amount),
            Step::Mint(to) => self.mint(to, token, amount),
            Step::Burn(from) => self.burn(from, token, amount),
        }
    }

    /// A batch: the check of every index against the balances as they stand,
    /// then the steps in order. Where a step fails, the balances are put back
    /// as they were before the batch.
    pub fn apply_batch(&mut self, step: Step, token: &Vec<TokenId>, amount: &Vec<Balance>) -> (r:
        Result<(), Error>)
        ensures
            r == batch_result(
                batch_outcome(
                    step,
                    old(self).ledger(),
                    old(self).approval_map(),
                    old(self).caller(),
                    token@,
                    amount@,
                ),
            ),
            final(self).ledger() == balances_after_batch(
                old(self).ledger(),
                batch_outcome(
                    step,
                    old(self).ledger(),
                    old(self).approval_map(),
                    old(self).caller(),
                    token@,
                    amount@,
                ),
            ),
            same_but_balances(old(self), final(self)),
    {
        self.check_steps(step, token, amount)?;
        let ghost l = self.ledger();
        let ghost a = self.approval_map();
        let ghost s = self.caller();
        assert(first_step_error(step, l, a, s, token@, amount@) is None);
        let saved = self.balances.clone();
        let mut i: usize = 0;
        assert(token@.take(0) =~= Seq::<TokenId>::empty());
        assert(amount@.take(0) =~= Seq::<Balance>::empty());
        while i < token.len()
            invariant
                token@.len() == amount@.len(),
                i <= token@.len(),
                l == old(self).ledger(),
                a == old(self).approval_map(),
                s == old(self).caller(),
                saved@ == old(self).balances@,
                first_step_error(step, l, a, s, token@, amount@) is None,
                same_but_balances(old(self), self),
                apply_steps(step, l, a, s, token@.take(i as int), amount@.take(i as int)) == Ok::<
                    Balances,
                    Error,
                >(self.ledger()),
            decreases token@.len() - i,
        {
            let ghost before = self.ledger();
            let r = self.apply_step(step, token[i], amount[i]);
            proof {
                assert(token@.take(i + 1).take(i as int) =~= token@.take(i as int));
                assert(amount@.take(i + 1).take(i as int) =~= amount@.take(i as int));
                assert(token@.take(i + 1)[i as int] == token@[i as int]);
                assert(amount@.take(i + 1)[i as int] == amount@[i as int]);
            }
            match r {
                Err(e) => {
                    assert(apply_steps(step, l, a, s, token@.take(i + 1), amount@.take(i + 1))
                        == Err::<Balances, Error>(e));
                    proof {
                        lemma_apply_steps_error_extends(step, l, a, s, token@, amount@, i + 1);
                    }
                    self.balances = saved;
                    return Err(e);
                },
                Ok(()) => {},
            }
            i += 1;
        }
        proof {
            assert(token@.take(token@.len() as int) =~= token@);
            assert(amount@.take(amount@.len() as int) =~= amount@);
        }
        Ok(())
    }

    /// Transfers each `amount[i]` of `token[i]` from `from` to `to`, in order.
    pub fn safe_batch_transfer_from(
        &mut self,
        from: AccountId,
        to: AccountId,
        token: Vec<TokenId>,
        amount: Vec<Balance>,
    ) -> (r: Result<(), Error>)
        ensures
            r == batch_result(
                batch_outcome(
                    Step::Transfer(from, to),
                    old(self).ledger(),
                    old(self).approval_map(),
                    old(self).caller(),
                    token@,
                    amount@,
                ),
            ),
            final(self).ledger() == balances_after_batch(
                old(self).ledger(),
                batch_outcome(
                    Step::Transfer(from, to),
                    old(self).ledger(),
                    old(self).approval_map(),
                    old(self).caller(),
                    token@,
                    amount@,
                ),
            ),
            same_but_balances(old(self), final(self)),
    {
        self.apply_batch(Step::Transfer(from, to), &token, &amount)
    }

    /// Mints each `token[i]` with `amount[i]` to `to`, in order.
    pub fn mint_batch(&mut self, to: AccountId, token: Vec<TokenId>, amount: Vec<Balance>) -> (r:
        Result<(), Error>)
        ensures
            r == batch_result(
                batch_outcome(
                    Step::Mint(to),
                    old(self).ledger(),
                    old(self).approval_map(),
                    old(self).caller(),
                    token@,
                    amount@,
                ),
            ),
            final(self).ledger() == balances_after_batch(
                old(self).ledger(),
                batch_outcome(
                    Step::Mint(to),
                    old(self).ledger(),
                    old(self).approval_map(),
                    old(self).caller(),
                    token@,
                    amount@,
                ),
            ),
            same_but_balances(old(self), final(self)),
    {
        self.apply_batch(Step::Mint(to), &token, &amount)
    }

    /// Burns each `amount[i]` of `token[i]` from `from`, in order.
    pub fn burn_batch(&mut self, from: AccountId, token: Vec<TokenId>, amount: Vec<Balance>) -> (r:
        Result<(), Error>)
        ensures
            r == batch_result(
                batch_outcome(
                    Step::Burn(from),
                    old(self).ledger(),
                    old(self).approval_map(),
                    old(self).caller(),
                    token@,
                    amount@,
                ),
            ),
            final(self).ledger() == balances_after_batch(
                old(self).ledger(),
                batch_outcome(
                    Step::Burn(from),
                    old(self).ledger(),
                    old(self).approval_map(),
                    old(self).caller(),
                    token@,
                    amount@,
                ),
            ),
            same_but_balances(old(self), final(self)),
    {
        self.apply_batch(Step::Burn(from), &token, &amount)
    }

    /// Sets whether `operator` may act for `owner`; only `owner` may do so.
    pub fn set_approval_for_all(
        &mut self,
        owner: AccountId,
        operator: AccountId,
        approved: bool,
    ) -> (r: Result<(), Error>)
        ensures
            r == if owner == old(self).caller() {
                Ok::<(), Error>(())
            } else {
                Err(Error::Unauthorized)
            },
            final(self).approval_map() == if r is Ok {
                after_approval(old(self).approval_map(), owner, operator, approved)
            } else {
                old(self).approval_map()
            },
            same_but_approvals(old(self), final(self)),
    {
        self.check_set_approval_for_all(owner, operator, approved)?;
        let ghost a = self.approval_map();
        let mut kv = match self.approvals.remove(&owner) {
            Some(kv) => kv,
            None => BTreeMap::new(),
        };
        kv.insert(operator, approved);
        self.approvals.insert(owner, kv);
        assert(self.approval_map() =~= after_approval(a, owner, operator, approved));
        Ok(())
    }

    /// Stores (`Some`) or removes (`None`) the metadata of `token`; only a
    /// holder of a nonzero balance of a known token may do so.
    pub fn update_token_metadata(&mut self, token: TokenId, metadata: Option<TokenMetadata>) -> (r:
        Result<(), Error>)
        ensures
            r == if !old(self).ledger().contains_key(token) {
                Err(Error::UnknownToken)
            } else if balance_in(old(self).ledger(), old(self).caller(), token) == 0 {
                Err(Error::Unauthorized)
            } else {
                Ok::<(), Error>(())
            },
            final(self).metadata_map() == if r is Err {
                old(self).metadata_map()
            } else {
                match metadata {
                    Some(m) => old(self).metadata_map().insert(token, m@),
                    None => old(self).metadata_map().remove(token),
                }
            },
            same_but_metadata(old(self), final(self)),
    {
        self.check_update_token_metadata(token, &metadata)?;
        let ghost before = self.metadata_map();
        match metadata {
            Some(m) => {
                let ghost v = m@;
                self.metadata_registry.insert(token, m);
                assert(self.metadata_map() =~= before.insert(token, v));
            },
            None => {
                self.metadata_registry.remove(&token);
                assert(self.metadata_map() =~= before.remove(token));
            },
        }
        Ok(())
    }
}

} // verus!
