//! The checks that decide, before any change, whether an operation is permitted.
//! Each returns the first condition that refuses it, in the order listed.

use vstd::prelude::*;
use crate::contract::{Contract, TokenMetadata};
use crate::model::{
    balance_in, batch_check, burn_error, first_step_error, lemma_first_step_error_extends,
    may_act_for, mint_error, outcome, step_error, transfer_error, Step,
};
use crate::types::{same_account, AccountId, Balance, Error, TokenId, Zero};

verus! {

impl Contract {
    /// Whether the caller may move or burn what `account` holds: it is the
    /// caller, or the caller is its approved operator.
    fn caller_may_act_for(&self, account: AccountId) -> (r: bool)
        ensures
            r == may_act_for(self.approval_map(), self.caller(), account),
    {
        let sender = self.sender();
        same_account(&account, &sender) || self.is_approved_for_all(account, sender)
    }

    /// A transfer needs a nonzero amount, a caller that may act for `from`,
    /// enough balance, distinct accounts, and a target other than the null account.
    pub fn check_transfer_from(
        &self,
        from: AccountId,
        to: AccountId,
        token: TokenId,
        amount: Balance,
    ) -> (r: Result<(), Error>)
        ensures
            r == outcome(
                transfer_error(self.ledger(), self.approval_map(), self.caller(), from, to, token, amount),
            ),
    {
        if amount == 0 {
            return Err(Error::ZeroAmount);
        }
        if !self.caller_may_act_for(from) {
            return Err(Error::Unauthorized);
        }
        if self.balance_of(from, token) < amount {
            return Err(Error::InsufficientBalance);
        }
        if same_account(&from, &to) {
            return Err(Error::SelfTransferNotPermitted);
        }
        if to.is_zero() {
            return Err(Error::TransferToNullAccount);
        }
        Ok(())
    }

    /// A mint needs a target other than the null account, a nonzero amount,
    /// and a token id that does not exist yet.
    pub fn check_mint(&self, to: AccountId, token: TokenId, amount: Balance) -> (r: Result<
        (),
        Error,
    >)
        ensures
            r == outcome(mint_error(self.ledger(), to, token, amount)),
    {
        if to.is_zero() {
            return Err(Error::TransferToNullAccount);
        }
        if amount == 0 {
            return Err(Error::ZeroAmount);
        }
        if self.balances.contains_key(&token) {
            return Err(Error::DuplicateMint);
        }
        Ok(())
    }

    /// A burn needs a nonzero amount, a caller that may act for `from`, and enough balance.
    pub fn check_burn(&self, from: AccountId, token: TokenId, amount: Balance) -> (r: Result<
        (),
        Error,
    >)
        ensures
            r == outcome(
                burn_error(self.ledger(), self.approval_map(), self.caller(), from, token, amount),
            ),
    {
        if amount == 0 {
            return Err(Error::ZeroAmount);
        }
        if !self.caller_may_act_for(from) {
            return Err(Error::Unauthorized);
        }
        if self.balance_of(from, token) < amount {
            return Err(Error::InsufficientBalance);
        }
        Ok(())
    }

    /// Paired account and token sequences must have equal lengths.
    pub fn check_balance_of_batch(&self, who: &Vec<AccountId>, token: &Vec<TokenId>) -> (r: Result<
        (),
        Error,
    >)
        ensures
            r == if who@.len() == token@.len() {
                Ok::<(), Error>(())
            } else {
                Err(Error::LengthMismatch)
            },
    {
        if who.len() != token.len() {
            return Err(Error::LengthMismatch);
        }
        Ok(())
    }

    /// Only `owner` itself may set the approvals of `owner`.
    pub fn check_set_approval_for_all(
        &self,
        owner: AccountId,
        operator: AccountId,
        approved: bool,
    ) -> (r: Result<(), Error>)
        ensures
            r == if owner == self.caller() {
                Ok::<(), Error>(())
            } else {
                Err(Error::Unauthorized)
            },
    {
        let sender = self.sender();
        if !same_account(&owner, &sender) {
            return Err(Error::Unauthorized);
        }
        Ok(())
    }

    /// Metadata may change only for a known token, and only by a caller that
    /// holds a nonzero balance of it.
    pub fn check_update_token_metadata(
        &self,
        token: TokenId,
        metadata: &Option<TokenMetadata>,
    ) -> (r: Result<(), Error>)
        ensures
            r == if !self.ledger().contains_key(token) {
                Err(Error::UnknownToken)
            } else if balance_in(self.ledger(), self.caller(), token) == 0 {
                Err(Error::Unauthorized)
            } else {
                Ok::<(), Error>(())
            },
    {
        if !self.balances.contains_key(&token) {
            return Err(Error::UnknownToken);
        }
        if self.balance_of(self.sender(), token) == 0 {
            return Err(Error::Unauthorized);
        }
        Ok(())
    }

    /// The check of one step of a batch.
    pub fn check_step(&self, step: Step, token: TokenId, amount: Balance) -> (r: Result<(), Error>)
        ensures
            r == outcome(
                step_error(step, self.ledger(), self.approval_map(), self.caller(), token, amount),
            ),
    {
        match step {
            Step::Transfer(from, to) => self.check_transfer_from(from, to, token, amount),
            Step::Mint(to) => self.check_mint(to, token, amount),
            Step::Burn(from) => self.check_burn(from, token, amount),
        }
    }

    /// The check of a batch: lengths first, then each index in order against
    /// the balances as they stand.
    pub fn check_steps(&self, step: Step, token: &Vec<TokenId>, amount: &Vec<Balance>) -> (r: Result<
        (),
        Error,
    >)
        ensures
            r == batch_check(step, self.ledger(), self.approval_map(), self.caller(), token@, amount@),
    {
        if token.len() != amount.len() {
            return Err(Error::LengthMismatch);
        }
        let ghost l = self.ledger();
        let ghost a = self.approval_map();
        let ghost s = self.caller();
        let mut i: usize = 0;
        while i < token.len()
            invariant
                token@.len() == amount@.len(),
                i <= token@.len(),
                first_step_error(step, l, a, s, token@.take(i as int), amount@.take(i as int)) is None,
                l == self.ledger(),
                a == self.approval_map(),
                s == self.caller(),
            decreases token@.len() - i,
        {
            let r = self.check_step(step, token[i], amount[i]);
            proof {
                assert(token@.take(i + 1).take(i as int) =~= token@.take(i as int));
                assert(amount@.take(i + 1).take(i as int) =~= amount@.take(i as int));
                assert(token@.take(i + 1)[i as int] == token@[i as int]);
                assert(amount@.take(i + 1)[i as int] == amount@[i as int]);
            }
            if r.is_err() {
                assert(first_step_error(step, l, a, s, token@.take(i + 1), amount@.take(i + 1)) is Some);
                proof {
                    lemma_first_step_error_extends(step, l, a, s, token@, amount@, i + 1);
                }
                return r;
            }
            i += 1;
        }
        proof {
            assert(token@.take(token@.len() as int) =~= token@);
            assert(amount@.take(amount@.len() as int) =~= amount@);
        }
        Ok(())
    }

    /// The check of a batch transfer: equal lengths, then each index as a single transfer.
    pub fn check_batch_transfer_from(
        &self,
        from: AccountId,
        to: AccountId,
        token: Vec<TokenId>,
        amount: Vec<Balance>,
    ) -> (r: Result<(), Error>)
        ensures
            r == batch_check(
                Step::Transfer(from, to),
                self.ledger(),
                self.approval_map(),
                self.caller(),
                token@,
                amount@,
            ),
    {
        self.check_steps(Step::Transfer(from, to), &token, &amount)
    }

    /// The check of a batch mint: equal lengths, then each index as a single mint.
    pub fn check_mint_batch(&self, to: AccountId, token: Vec<TokenId>, amount: Vec<Balance>) -> (r:
        Result<(), Error>)
        ensures
            r == batch_check(
                Step::Mint(to),
                self.ledger(),
                self.approval_map(),
                self.caller(),
                token@,
                amount@,
            ),
    {
        self.check_steps(Step::Mint(to), &token, &amount)
    }

    /// The check of a batch burn: equal lengths, then each index as a single burn.
    pub fn check_burn_batch(&self, from: AccountId, token: Vec<TokenId>, amount: Vec<Balance>) -> (r:
        Result<(), Error>)
        ensures
            r == batch_check(
                Step::Burn(from),
                self.ledger(),
                self.approval_map(),
                self.caller(),
                token@,
                amount@,
            ),
    {
        self.check_steps(Step::Burn(from), &token, &amount)
    }
}

} // verus!
