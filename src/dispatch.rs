//! Routing: each request to one checked change and one event, each query to
//! one reply.

use vstd::prelude::*;
use crate::codec::{Event, Init, Input, Query, State};
use crate::contract::{
    same_but_approvals, same_but_balances, same_but_metadata, Contract, MockConfig, TokenMetadata,
    TokenMetadataView,
};
use crate::model::{
    after_approval, after_burn, after_mint, after_transfer, approved_in, balance_in,
    balances_after_batch, batch_outcome, batch_result, burn_error, mint_error, outcome,
    transfer_error, Step,
};
use crate::types::{null_account, AccountId, Error, Zero};

verus! {

/// The event where the change succeeded, else the refusal.
pub open spec fn emit(r: Result<(), Error>, ev: Event) -> Result<Event, Error> {
    match r {
        Ok(_) => Ok(ev),
        Err(e) => Err(e),
    }
}

/// The text of optional metadata.
pub open spec fn metadata_view_of(m: Option<TokenMetadata>) -> Option<TokenMetadataView> {
    match m {
        Some(x) => Some(x@),
        None => None,
    }
}

/// The refusal of a metadata update, if any.
pub open spec fn metadata_update_check(c: &Contract, token: u128) -> Result<(), Error> {
    if !c.ledger().contains_key(token) {
        Err(Error::UnknownToken)
    } else if balance_in(c.ledger(), c.caller(), token) == 0 {
        Err(Error::Unauthorized)
    } else {
        Ok(())
    }
}

/// Whether `r` is the echo of a successful metadata update of `token` with `metadata`.
pub open spec fn echoes_update(r: Result<Event, Error>, token: u128, metadata: Option<TokenMetadata>) -> bool {
    match r {
        Ok(Event::UpdateTokenMetadata { token: t, metadata: m }) => t == token && metadata_view_of(m)
            == metadata_view_of(metadata),
        _ => false,
    }
}

/// A new ledger owned by the initialising caller, with the given name, symbol and base uri.
pub fn init(msg: Init, owner: AccountId) -> (r: Contract)
    ensures
        r.owner == owner,
        r.name == msg.name,
        r.symbol == msg.symbol,
        r.base_uri == msg.base_uri,
        r.env == MockConfig::default_spec(),
        r.ledger() == Map::<u128, Map<AccountId, u128>>::empty(),
        r.approval_map() == Map::<AccountId, Map<AccountId, bool>>::empty(),
        r.metadata_map() == Map::<u128, TokenMetadataView>::empty(),
{
    let mut c = Contract::new(&owner);
    c.name = msg.name;
    c.symbol = msg.symbol;
    c.base_uri = msg.base_uri;
    assert(c.ledger() =~= Map::<u128, Map<AccountId, u128>>::empty());
    assert(c.approval_map() =~= Map::<AccountId, Map<AccountId, bool>>::empty());
    assert(c.metadata_map() =~= Map::<u128, TokenMetadataView>::empty());
    c
}

impl Contract {
    /// Handles one request from the caller in `env`: the matching check and
    /// change, then the event that reports it with the caller as operator.
    pub fn handle(&mut self, input: Input) -> (r: Result<Event, Error>)
        ensures
            match input {
                Input::TransferFrom { from, to, token, amount } => {
                    &&& r == emit(
                        outcome(
                            transfer_error(
                                old(self).ledger(),
                                old(self).approval_map(),
                                old(self).caller(),
                                from,
                                to,
                                token,
                                amount,
                            ),
                        ),
                        Event::TransferSingle { operator: old(self).caller(), from, to, token, amount },
                    )
                    &&& final(self).ledger() == if r is Ok {
                        after_transfer(old(self).ledger(), from, to, token, amount)
                    } else {
                        old(self).ledger()
                    }
                    &&& same_but_balances(old(self), final(self))
                },
                Input::BatchTransferFrom { from, to, token, amount } => {
                    let o = batch_outcome(
                        Step::Transfer(from, to),
                        old(self).ledger(),
                        old(self).approval_map(),
                        old(self).caller(),
                        token@,
                        amount@,
                    );
                    &&& r == emit(
                        batch_result(o),
                        Event::TransferBatch { operator: old(self).caller(), from, to, token, amount },
                    )
                    &&& final(self).ledger() == balances_after_batch(old(self).ledger(), o)
                    &&& same_but_balances(old(self), final(self))
                },
                Input::SetApprovalForAll { operator, approved } => {
                    &&& r == Ok::<Event, Error>(
                        Event::ApprovalForAll { owner: old(self).caller(), operator, approved },
                    )
                    &&& final(self).approval_map() == after_approval(
                        old(self).approval_map(),
                        old(self).caller(),
                        operator,
                        approved,
                    )
                    &&& same_but_approvals(old(self), final(self))
                },
                Input::Mint { to, token, amount } => {
                    &&& r == emit(
                        outcome(mint_error(old(self).ledger(), to, token, amount)),
                        Event::TransferSingle {
                            operator: old(self).caller(),
                            from: null_account(),
                            to,
                            token,
                            amount,
                        },
                    )
                    &&& final(self).ledger() == if r is Ok {
                        after_mint(old(self).ledger(), to, token, amount)
                    } else {
                        old(self).ledger()
                    }
                    &&& same_but_balances(old(self), final(self))
                },
                Input::MintBatch { to, token, amount } => {
                    let o = batch_outcome(
                        Step::Mint(to),
                        old(self).ledger(),
                        old(self).approval_map(),
                        old(self).caller(),
                        token@,
                        amount@,
                    );
                    &&& r == emit(
                        batch_result(o),
                        Event::TransferBatch {
                            operator: old(self).caller(),
                            from: null_account(),
                            to,
                            token,
                            amount,
                        },
                    )
                    &&& final(self).ledger() == balances_after_batch(old(self).ledger(), o)
                    &&& same_but_balances(old(self), final(self))
                },
                Input::Burn { from, token, amount } => {
                    &&& r == emit(
                        outcome(
                            burn_error(
                                old(self).ledger(),
                                old(self).approval_map(),
                                old(self).caller(),
                                from,
                                token,
                                amount,
                            ),
                        ),
                        Event::TransferSingle {
                            operator: old(self).caller(),
                            from,
                            to: null_account(),
                            token,
                            amount,
                        },
                    )
                    &&& final(self).ledger() == if r is Ok {
                        after_burn(old(self).ledger(), from, token, amount)
                    } else {
                        old(self).ledger()
                    }
                    &&& same_but_balances(old(self), final(self))
                },
                Input::BurnBatch { from, token, amount } => {
                    let o = batch_outcome(
                        Step::Burn(from),
                        old(self).ledger(),
                        old(self).approval_map(),
                        old(self).caller(),
                        token@,
                        amount@,
                    );
                    &&& r == emit(
                        batch_result(o),
                        Event::TransferBatch {
                            operator: old(self).caller(),
                            from,
                            to: null_account(),
                            token,
                            amount,
                        },
                    )
                    &&& final(self).ledger() == balances_after_batch(old(self).ledger(), o)
                    &&& same_but_balances(old(self), final(self))
                },
                Input::UpdateTokenMetadata { token, metadata } => {
                    let c = metadata_update_check(old(self), token);
                    &&& c is Ok ==> echoes_update(r, token, metadata)
                    &&& c matches Err(e) ==> r == Err::<Event, Error>(e)
                    &&& final(self).metadata_map() == if c is Err {
                        old(self).metadata_map()
                    } else {
                        match metadata {
                            Some(m) => old(self).metadata_map().insert(token, m@),
                            None => old(self).metadata_map().remove(token),
                        }
                    }
                    &&& same_but_metadata(old(self), final(self))
                },
                Input::Whoami => {
                    &&& r == Ok::<Event, Error>(
                        Event::Whoami { sender: old(self).env.sender, origin: old(self).env.origin },
                    )
                    &&& *final(self) == *old(self)
                },
            },
    {
        let sender = self.sender();
        match input {
            Input::TransferFrom { from, to, token, amount } => {
                self.safe_transfer_from(from, to, token, amount)?;
                Ok(Event::TransferSingle { operator: sender, from, to, token, amount })
            },
            Input::BatchTransferFrom { from, to, token, amount } => {
                self.apply_batch(Step::Transfer(from, to), &token, &amount)?;
                Ok(Event::TransferBatch { operator: sender, from, to, token, amount })
            },
            Input::SetApprovalForAll { operator, approved } => {
                self.set_approval_for_all(sender, operator, approved)?;
                Ok(Event::ApprovalForAll { owner: sender, operator, approved })
            },
            Input::Mint { to, token, amount } => {
                self.mint(to, token, amount)?;
                Ok(Event::TransferSingle { operator: sender, from: AccountId::zero(), to, token, amount })
            },
            Input::MintBatch { to, token, amount } => {
                self.apply_batch(Step::Mint(to), &token, &amount)?;
                Ok(Event::TransferBatch { operator: sender, from: AccountId::zero(), to, token, amount })
            },
            Input::Burn { from, token, amount } => {
                self.burn(from, token, amount)?;
                Ok(Event::TransferSingle { operator: sender, from, to: AccountId::zero(), token, amount })
            },
            Input::BurnBatch { from, token, amount } => {
                self.apply_batch(Step::Burn(from), &token, &amount)?;
                Ok(Event::TransferBatch { operator: sender, from, to: AccountId::zero(), token, amount })
            },
            Input::UpdateTokenMetadata { token, metadata } => {
                let echo = match &metadata {
                    Some(m) => Some(m.duplicate()),
                    None => None,
                };
                self.update_token_metadata(token, metadata)?;
                Ok(Event::UpdateTokenMetadata { token, metadata: echo })
            },
            Input::Whoami => Ok(Event::Whoami { sender, origin: self.origin() }),
        }
    }

    /// Answers one query; only a batch balance query with unequal lengths is refused.
    pub fn state(&self, query: Query) -> (r: Result<State, Error>)
        ensures
            match query {
                Query::Name => r matches Ok(State::Name(s)) && s@ == self.name@,
                Query::Symbol => r matches Ok(State::Symbol(s)) && s@ == self.symbol@,
                Query::BaseUri => r matches Ok(State::BaseUri(s)) && s@ == self.base_uri@,
                Query::BalanceOf(who, token) => r == Ok::<State, Error>(
                    State::BalanceOf(balance_in(self.ledger(), who, token)),
                ),
                Query::BalanceOfBatch(who, token) => if who@.len() != token@.len() {
                    r == Err::<State, Error>(Error::LengthMismatch)
                } else {
                    r matches Ok(State::BalanceOfBatch(v)) && v@ == Seq::new(
                        who@.len(),
                        |i: int| balance_in(self.ledger(), who@[i], token@[i]),
                    )
                },
                Query::IsApprovedForAll { owner, operator } => r == Ok::<State, Error>(
                    State::IsApprovedForAll(approved_in(self.approval_map(), owner, operator)),
                ),
                Query::TokenMetadata(token) => r matches Ok(State::TokenMetadata(m))
                    && metadata_view_of(m) == if self.metadata_map().contains_key(token) {
                    Some(self.metadata_map()[token])
                } else {
                    None
                },
            },
    {
        match query {
            Query::Name => Ok(State::Name(self.name())),
            Query::Symbol => Ok(State::Symbol(self.symbol())),
            Query::BaseUri => Ok(State::BaseUri(self.base_uri.clone())),
            Query::BalanceOf(who, token) => Ok(State::BalanceOf(self.balance_of(who, token))),
            Query::BalanceOfBatch(who, token) => {
                let v = self.balance_of_batch(who, token)?;
                Ok(State::BalanceOfBatch(v))
            },
            Query::IsApprovedForAll { owner, operator } => Ok(
                State::IsApprovedForAll(self.is_approved_for_all(owner, operator)),
            ),
            Query::TokenMetadata(token) => Ok(State::TokenMetadata(self.get_token_metadata(token))),
        }
    }
}

} // verus!
