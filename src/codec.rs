//! The requests, events, queries and replies that the ledger exchanges with its host.

use vstd::prelude::*;
use crate::contract::TokenMetadata;
use crate::types::{AccountId, Balance, TokenId};

verus! {

/// What the ledger is initialised with; the initialising caller becomes its owner.
#[derive(Clone, Debug, Default, PartialEq, Eq)]
pub struct Init {
    pub name: String,
    pub symbol: String,
    pub base_uri: String,
}

/// The reply to a successful initialisation.
#[derive(Clone, Copy, Debug, Default, PartialEq, Eq)]
pub struct InitOk;

/// A request that changes the ledger, or asks who is calling.
#[derive(Debug, PartialEq, Eq)]
pub enum Input {
    TransferFrom { from: AccountId, to: AccountId, token: TokenId, amount: Balance },
    BatchTransferFrom {
        from: AccountId,
        to: AccountId,
        token: Vec<TokenId>,
        amount: Vec<Balance>,
    },
    SetApprovalForAll { operator: AccountId, approved: bool },
    Mint { to: AccountId, token: TokenId, amount: Balance },
    MintBatch { to: AccountId, token: Vec<TokenId>, amount: Vec<Balance> },
    Burn { from: AccountId, token: TokenId, amount: Balance },
    BurnBatch { from: AccountId, token: Vec<TokenId>, amount: Vec<Balance> },
    UpdateTokenMetadata { token: TokenId, metadata: Option<TokenMetadata> },
    Whoami,
}

/// What a handled request reports.
#[derive(Debug, PartialEq, Eq)]
pub enum Event {
    TransferSingle {
        operator: AccountId,
        from: AccountId,
        to: AccountId,
        token: TokenId,
        amount: Balance,
    },
    TransferBatch {
        operator: AccountId,
        from: AccountId,
        to: AccountId,
        token: Vec<TokenId>,
        amount: Vec<Balance>,
    },
    ApprovalForAll { owner: AccountId, operator: AccountId, approved: bool },
    URI { value: String, token: TokenId },
    UpdateTokenMetadata { token: TokenId, metadata: Option<TokenMetadata> },
    Whoami { sender: AccountId, origin: AccountId },
}

/// A read-only question about the ledger.
#[derive(Debug, PartialEq, Eq)]
pub enum Query {
    Name,
    Symbol,
    BaseUri,
    BalanceOf(AccountId, TokenId),
    BalanceOfBatch(Vec<AccountId>, Vec<TokenId>),
    IsApprovedForAll { owner: AccountId, operator: AccountId },
    TokenMetadata(TokenId),
}

/// The answer to a [`Query`], variant for variant.
#[derive(Clone, Debug, PartialEq, Eq)]
pub enum State {
    Name(String),
    Symbol(String),
    BaseUri(String),
    BalanceOf(Balance),
    BalanceOfBatch(Vec<Balance>),
    IsApprovedForAll(bool),
    TokenMetadata(Option<TokenMetadata>),
}

} // verus!
