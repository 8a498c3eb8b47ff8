//! The ledger state and its read-only queries.

use std::collections::BTreeMap;
use vstd::prelude::*;
use crate::model::{approved_in, balance_in, Approvals, Balances};
use crate::types::{null_account, AccountId, Balance, Error, TokenId, Zero};

verus! {

/// The identities that the host attributes to the call being handled: the
/// immediate caller and the account that started the transaction.
#[derive(Clone, Copy, Debug, Default, PartialEq, Eq)]
pub struct MockConfig {
    pub origin: AccountId,
    pub sender: AccountId,
}

impl MockConfig {
    pub fn set_sender(&mut self, sender: AccountId)
        ensures
            *final(self) == (MockConfig { sender, ..*old(self) }),
    {
        self.sender = sender;
    }

    pub fn set_origin(&mut self, origin: AccountId)
        ensures
            *final(self) == (MockConfig { origin, ..*old(self) }),
    {
        self.origin = origin;
    }

    pub fn set_sender_origin(&mut self, sender: AccountId, origin: AccountId)
        ensures
            *final(self) == (MockConfig { sender, origin }),
    {
        self.set_sender(sender);
        self.set_origin(origin);
    }
}

/// Descriptive data attached to one token id.
#[derive(Clone, Debug, Default, PartialEq, Eq)]
pub struct TokenMetadata {
    pub name: String,
    pub description: String,
    pub image_uri: String,
    pub json_uri: String,
}

/// The text of a [`TokenMetadata`].
pub struct TokenMetadataView {
    pub name: Seq<char>,
    pub description: Seq<char>,
    pub image_uri: Seq<char>,
    pub json_uri: Seq<char>,
}

impl View for TokenMetadata {
    type V = TokenMetadataView;

    open spec fn view(&self) -> TokenMetadataView {
        TokenMetadataView {
            name: self.name@,
            description: self.description@,
            image_uri: self.image_uri@,
            json_uri: self.json_uri@,
        }
    }
}

impl TokenMetadata {
    /// A copy with the same text.
    pub fn duplicate(&self) -> (r: TokenMetadata)
        ensures
            r@ == self@,
    {
        TokenMetadata {
            name: self.name.clone(),
            description: self.description.clone(),
            image_uri: self.image_uri.clone(),
            json_uri: self.json_uri.clone(),
        }
    }
}

/// The ledger: contract identity fields, balances, approvals and token metadata.
pub struct Contract {
    pub env: MockConfig,
    pub owner: AccountId,
    pub name: String,
    pub symbol: String,
    pub base_uri: String,
    pub balances: BTreeMap<TokenId, BTreeMap<AccountId, Balance>>,
    pub approvals: BTreeMap<AccountId, BTreeMap<AccountId, bool>>,
    pub metadata_registry: BTreeMap<TokenId, TokenMetadata>,
}

/// The balances held in nested maps, as one `Map` of `Map`s.
pub open spec fn balances_of(b: Map<TokenId, BTreeMap<AccountId, Balance>>) -> Balances {
    b.map_values(|m: BTreeMap<AccountId, Balance>| m@)
}

/// The approval flags held in nested maps, as one `Map` of `Map`s.
pub open spec fn approvals_of(b: Map<AccountId, BTreeMap<AccountId, bool>>) -> Approvals {
    b.map_values(|m: BTreeMap<AccountId, bool>| m@)
}

/// Whether two ledgers agree on everything but their balances.
pub open spec fn same_but_balances(a: &Contract, b: &Contract) -> bool {
    &&& a.env == b.env
    &&& a.owner == b.owner
    &&& a.name == b.name
    &&& a.symbol == b.symbol
    &&& a.base_uri == b.base_uri
    &&& a.approvals == b.approvals
    &&& a.metadata_registry == b.metadata_registry
}

/// Whether two ledgers agree on everything but their approvals.
pub open spec fn same_but_approvals(a: &Contract, b: &Contract) -> bool {
    &&& a.env == b.env
    &&& a.owner == b.owner
    &&& a.name == b.name
    &&& a.symbol == b.symbol
    &&& a.base_uri == b.base_uri
    &&& a.balances == b.balances
    &&& a.metadata_registry == b.metadata_registry
}

/// Whether two ledgers agree on everything but their token metadata.
pub open spec fn same_but_metadata(a: &Contract, b: &Contract) -> bool {
    &&& a.env == b.env
    &&& a.owner == b.owner
    &&& a.name == b.name
    &&& a.symbol == b.symbol
    &&& a.base_uri == b.base_uri
    &&& a.balances == b.balances
    &&& a.approvals == b.approvals
}

impl Contract {
    /// The balances, by token then by account.
    pub open spec fn ledger(&self) -> Balances {
        balances_of(self.balances@)
    }

    /// The approval flags, by owner then by operator.
    pub open spec fn approval_map(&self) -> Approvals {
        approvals_of(self.approvals@)
    }

    /// The stored metadata, by token.
    pub open spec fn metadata_map(&self) -> Map<TokenId, TokenMetadataView> {
        self.metadata_registry@.map_values(|m: TokenMetadata| m@)
    }

    /// The caller of the call being handled.
    pub open spec fn caller(&self) -> AccountId {
        self.env.sender
    }

    /// A ledger owned by `owner`, with empty texts and empty maps.
    pub fn new(owner: &AccountId) -> (r: Contract)
        ensures
            r.owner == *owner,
            r.env == MockConfig::default_spec(),
            r.name@.len() == 0,
            r.symbol@.len() == 0,
            r.base_uri@.len() == 0,
            r.balances@ == Map::<TokenId, BTreeMap<AccountId, Balance>>::empty(),
            r.approvals@ == Map::<AccountId, BTreeMap<AccountId, bool>>::empty(),
            r.metadata_registry@ == Map::<TokenId, TokenMetadata>::empty(),
    {
        Contract {
            env: MockConfig { origin: AccountId::zero(), sender: AccountId::zero() },
            owner: *owner,
            name: String::new(),
            symbol: String::new(),
            base_uri: String::new(),
            balances: BTreeMap::new(),
            approvals: BTreeMap::new(),
            metadata_registry: BTreeMap::new(),
        }
    }

    /// The caller of the call being handled.
    pub fn sender(&self) -> (r: AccountId)
        ensures
            r == self.env.sender,
    {
        self.env.sender
    }

    /// The account that started the transaction being handled.
    pub fn origin(&self) -> (r: AccountId)
        ensures
            r == self.env.origin,
    {
        self.env.origin
    }

    /// The balance of `who` in `token`; zero where either is unknown.
    pub fn balance_of(&self, who: AccountId, token: TokenId) -> (r: Balance)
        ensures
            r == balance_in(self.ledger(), who, token),
    {
        match self.balances.get(&token) {
            Some(kv) => match kv.get(&who) {
                Some(v) => *v,
                None => 0,
            },
            None => 0,
        }
    }

    /// The balance of `who[i]` in `token[i]` for each index, in order.
    pub fn balance_of_batch(&self, who: Vec<AccountId>, token: Vec<TokenId>) -> (r: Result<
        Vec<Balance>,
        Error,
    >)
        ensures
            who@.len() != token@.len() ==> r == Err::<Vec<Balance>, Error>(Error::LengthMismatch),
            who@.len() == token@.len() ==> r is Ok && r->Ok_0@ == Seq::new(
                who@.len(),
                |i: int| balance_in(self.ledger(), who@[i], token@[i]),
            ),
    {
        self.check_balance_of_batch(&who, &token)?;
        let mut out: Vec<Balance> = Vec::new();
        let mut i: usize = 0;
        while i < token.len()
            invariant
                who@.len() == token@.len(),
                i <= token@.len(),
                out@ == Seq::new(i as nat, |j: int| balance_in(self.ledger(), who@[j], token@[j])),
            decreases token@.len() - i,
        {
            let b = self.balance_of(who[i], token[i]);
            out.push(b);
            i += 1;
            assert(out@ =~= Seq::new(i as nat, |j: int| balance_in(self.ledger(), who@[j], token@[j])));
        }
        Ok(out)
    }

    /// Whether `operator` may act for `owner`; false where nothing was stored.
    pub fn is_approved_for_all(&self, owner: AccountId, operator: AccountId) -> (r: bool)
        ensures
            r == approved_in(self.approval_map(), owner, operator),
    {
        match self.approvals.get(&owner) {
            Some(kv) => match kv.get(&operator) {
                Some(v) => *v,
                None => false,
            },
            None => false,
        }
    }

    /// The uri of every token: the base uri, whatever the token.
    pub fn uri(&self, token: TokenId) -> (r: String)
        ensures
            r@ == self.base_uri@,
    {
        self.base_uri.clone()
    }

    pub fn name(&self) -> (r: String)
        ensures
            r@ == self.name@,
    {
        self.name.clone()
    }

    pub fn symbol(&self) -> (r: String)
        ensures
            r@ == self.symbol@,
    {
        self.symbol.clone()
    }

    /// The metadata stored for `token`, if any.
    pub fn get_token_metadata(&self, token: TokenId) -> (r: Option<TokenMetadata>)
        ensures
            self.metadata_map().contains_key(token) <==> r is Some,
            r is Some ==> r->Some_0@ == self.metadata_map()[token],
    {
        match self.metadata_registry.get(&token) {
            Some(m) => Some(m.duplicate()),
            None => None,
        }
    }
}

impl MockConfig {
    /// Both identities null.
    pub open spec fn default_spec() -> MockConfig {
        MockConfig { origin: null_account(), sender: null_account() }
    }
}

impl Default for Contract {
    fn default() -> (r: Contract)
        ensures
            r.owner == null_account(),
            r.env == MockConfig::default_spec(),
            r.name@.len() == 0,
            r.symbol@.len() == 0,
            r.base_uri@.len() == 0,
            r.balances@ == Map::<TokenId, BTreeMap<AccountId, Balance>>::empty(),
            r.approvals@ == Map::<AccountId, BTreeMap<AccountId, bool>>::empty(),
            r.metadata_registry@ == Map::<TokenId, TokenMetadata>::empty(),
    {
        Contract::new(&AccountId::zero())
    }
}

} // verus!
