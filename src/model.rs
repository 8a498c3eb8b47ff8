//! The mathematical model of the ledger: its maps as `Map`s, and what each
//! operation checks and changes, as spec functions over them.

use vstd::prelude::*;
use crate::types::{null_account, AccountId, Balance, Error, TokenId};

verus! {

/// Balances by token, then by account. A token is known iff it has an entry.
pub type Balances = Map<TokenId, Map<AccountId, Balance>>;

/// Approval flags by owner, then by operator.
pub type Approvals = Map<AccountId, Map<AccountId, bool>>;

/// The balance of `who` in `token`: zero where the token or the account is absent.
pub open spec fn balance_in(l: Balances, who: AccountId, token: TokenId) -> Balance {
    if l.contains_key(token) && l[token].contains_key(who) {
        l[token][who]
    } else {
        0
    }
}

/// Whether `operator` may act for `owner`: false where no flag is stored.
pub open spec fn approved_in(a: Approvals, owner: AccountId, operator: AccountId) -> bool {
    a.contains_key(owner) && a[owner].contains_key(operator) && a[owner][operator]
}

/// Whether the caller `sender` may move or burn what `account` holds.
pub open spec fn may_act_for(a: Approvals, sender: AccountId, account: AccountId) -> bool {
    account == sender || approved_in(a, account, sender)
}

/// `x + y`, held at `u128::MAX`.
pub open spec fn saturating_sum(x: u128, y: u128) -> u128 {
    if x + y > u128::MAX {
        u128::MAX
    } else {
        (x + y) as u128
    }
}

/// The first condition that refuses a transfer, in the order they are checked.
pub open spec fn transfer_error(
    l: Balances,
    a: Approvals,
    sender: AccountId,
    from: AccountId,
    to: AccountId,
    token: TokenId,
    amount: Balance,
) -> Option<Error> {
    if amount == 0 {
        Some(Error::ZeroAmount)
    } else if !may_act_for(a, sender, from) {
        Some(Error::Unauthorized)
    } else if balance_in(l, from, token) < amount {
        Some(Error::InsufficientBalance)
    } else if from == to {
        Some(Error::SelfTransferNotPermitted)
    } else if to == null_account() {
        Some(Error::TransferToNullAccount)
    } else {
        None
    }
}

/// The first condition that refuses a mint.
pub open spec fn mint_error(l: Balances, to: AccountId, token: TokenId, amount: Balance) -> Option<
    Error,
> {
    if to == null_account() {
        Some(Error::TransferToNullAccount)
    } else if amount == 0 {
        Some(Error::ZeroAmount)
    } else if l.contains_key(token) {
        Some(Error::DuplicateMint)
    } else {
        None
    }
}

/// The first condition that refuses a burn.
pub open spec fn burn_error(
    l: Balances,
    a: Approvals,
    sender: AccountId,
    from: AccountId,
    token: TokenId,
    amount: Balance,
) -> Option<Error> {
    if amount == 0 {
        Some(Error::ZeroAmount)
    } else if !may_act_for(a, sender, from) {
        Some(Error::Unauthorized)
    } else if balance_in(l, from, token) < amount {
        Some(Error::InsufficientBalance)
    } else {
        None
    }
}

/// The balances after a transfer: `from` loses `amount` and `to` gains it,
/// both within the sub-map of `token`.
pub open spec fn after_transfer(
    l: Balances,
    from: AccountId,
    to: AccountId,
    token: TokenId,
    amount: Balance,
) -> Balances {
    l.insert(
        token,
        l[token].insert(from, (balance_in(l, from, token) - amount) as u128).insert(
            to,
            saturating_sum(balance_in(l, to, token), amount),
        ),
    )
}

/// The balances after a mint: the token comes into existence, held by `to` alone.
pub open spec fn after_mint(l: Balances, to: AccountId, token: TokenId, amount: Balance) -> Balances {
    l.insert(token, Map::empty().insert(to, amount))
}

/// The balances after a burn: `from` loses `amount` of `token`.
pub open spec fn after_burn(l: Balances, from: AccountId, token: TokenId, amount: Balance) -> Balances {
    l.insert(token, l[token].insert(from, (balance_in(l, from, token) - amount) as u128))
}

/// The approval flags after `owner` sets the flag of `operator` to `approved`.
pub open spec fn after_approval(
    a: Approvals,
    owner: AccountId,
    operator: AccountId,
    approved: bool,
) -> Approvals {
    let flags = if a.contains_key(owner) {
        a[owner]
    } else {
        Map::empty()
    };
    a.insert(owner, flags.insert(operator, approved))
}

/// What one index of a batch does: the singular operation that a batch repeats.
#[derive(Clone, Copy)]
pub enum Step {
    Transfer(AccountId, AccountId),
    Mint(AccountId),
    Burn(AccountId),
}

/// The first condition that refuses one step.
pub open spec fn step_error(
    s: Step,
    l: Balances,
    a: Approvals,
    sender: AccountId,
    token: TokenId,
    amount: Balance,
) -> Option<Error> {
    match s {
        Step::Transfer(from, to) => transfer_error(l, a, sender, from, to, token, amount),
        Step::Mint(to) => mint_error(l, to, token, amount),
        Step::Burn(from) => burn_error(l, a, sender, from, token, amount),
    }
}

/// The balances after one step.
pub open spec fn after_step(s: Step, l: Balances, token: TokenId, amount: Balance) -> Balances {
    match s {
        Step::Transfer(from, to) => after_transfer(l, from, to, token, amount),
        Step::Mint(to) => after_mint(l, to, token, amount),
        Step::Burn(from) => after_burn(l, from, token, amount),
    }
}

/// The first index whose step is refused against the balances `l` as they
/// stand, each index checked against the same `l`.
pub open spec fn first_step_error(
    s: Step,
    l: Balances,
    a: Approvals,
    sender: AccountId,
    tokens: Seq<TokenId>,
    amounts: Seq<Balance>,
) -> Option<Error>
    decreases tokens.len(),
{
    if tokens.len() == 0 {
        None
    } else {
        let n = tokens.len() - 1;
        match first_step_error(s, l, a, sender, tokens.take(n), amounts.take(n)) {
            Some(e) => Some(e),
            None => step_error(s, l, a, sender, tokens[n], amounts[n]),
        }
    }
}

/// The steps applied one after another, each checked against the balances
/// that the steps before it left.
pub open spec fn apply_steps(
    s: Step,
    l: Balances,
    a: Approvals,
    sender: AccountId,
    tokens: Seq<TokenId>,
    amounts: Seq<Balance>,
) -> Result<Balances, Error>
    decreases tokens.len(),
{
    if tokens.len() == 0 {
        Ok(l)
    } else {
        let n = tokens.len() - 1;
        match apply_steps(s, l, a, sender, tokens.take(n), amounts.take(n)) {
            Err(e) => Err(e),
            Ok(m) => match step_error(s, m, a, sender, tokens[n], amounts[n]) {
                Some(e) => Err(e),
                None => Ok(after_step(s, m, tokens[n], amounts[n])),
            },
        }
    }
}

/// What a batch does: the lengths must agree, every index must pass its check
/// against the balances before the batch, and then the steps run in order.
pub open spec fn batch_outcome(
    s: Step,
    l: Balances,
    a: Approvals,
    sender: AccountId,
    tokens: Seq<TokenId>,
    amounts: Seq<Balance>,
) -> Result<Balances, Error> {
    if tokens.len() != amounts.len() {
        Err(Error::LengthMismatch)
    } else {
        match first_step_error(s, l, a, sender, tokens, amounts) {
            Some(e) => Err(e),
            None => apply_steps(s, l, a, sender, tokens, amounts),
        }
    }
}

/// Once a prefix of a batch has an index that its check refuses, the whole
/// batch is refused for the same reason.
pub proof fn lemma_first_step_error_extends(
    s: Step,
    l: Balances,
    a: Approvals,
    sender: AccountId,
    tokens: Seq<TokenId>,
    amounts: Seq<Balance>,
    k: int,
)
    requires
        tokens.len() == amounts.len(),
        0 <= k <= tokens.len(),
        first_step_error(s, l, a, sender, tokens.take(k), amounts.take(k)) is Some,
    ensures
        first_step_error(s, l, a, sender, tokens, amounts) == first_step_error(
            s,
            l,
            a,
            sender,
            tokens.take(k),
            amounts.take(k),
        ),
    decreases tokens.len(),
{
    if k == tokens.len() {
        assert(tokens.take(k) =~= tokens);
        assert(amounts.take(k) =~= amounts);
    } else {
        let n = tokens.len() - 1;
        assert(tokens.take(n).take(k) =~= tokens.take(k));
        assert(amounts.take(n).take(k) =~= amounts.take(k));
        lemma_first_step_error_extends(s, l, a, sender, tokens.take(n), amounts.take(n), k);
    }
}

/// Once a prefix of a batch fails when run in order, the whole batch fails
/// for the same reason.
pub proof fn lemma_apply_steps_error_extends(
    s: Step,
    l: Balances,
    a: Approvals,
    sender: AccountId,
    tokens: Seq<TokenId>,
    amounts: Seq<Balance>,
    k: int,
)
    requires
        tokens.len() == amounts.len(),
        0 <= k <= tokens.len(),
        apply_steps(s, l, a, sender, tokens.take(k), amounts.take(k)) is Err,
    ensures
        apply_steps(s, l, a, sender, tokens, amounts) == apply_steps(
            s,
            l,
            a,
            sender,
            tokens.take(k),
            amounts.take(k),
        ),
    decreases tokens.len(),
{
    if k == tokens.len() {
        assert(tokens.take(k) =~= tokens);
        assert(amounts.take(k) =~= amounts);
    } else {
        let n = tokens.len() - 1;
        assert(tokens.take(n).take(k) =~= tokens.take(k));
        assert(amounts.take(n).take(k) =~= amounts.take(k));
        lemma_apply_steps_error_extends(s, l, a, sender, tokens.take(n), amounts.take(n), k);
    }
}

/// What the check of a batch decides: the lengths must agree, and then no
/// index may be refused against the balances as they stand.
pub open spec fn batch_check(
    s: Step,
    l: Balances,
    a: Approvals,
    sender: AccountId,
    tokens: Seq<TokenId>,
    amounts: Seq<Balance>,
) -> Result<(), Error> {
    if tokens.len() != amounts.len() {
        Err(Error::LengthMismatch)
    } else {
        outcome(first_step_error(s, l, a, sender, tokens, amounts))
    }
}

/// `Ok(())` where nothing refuses, else the refusal.
pub open spec fn outcome(e: Option<Error>) -> Result<(), Error> {
    match e {
        Some(e) => Err(e),
        None => Ok(()),
    }
}

/// `Ok(())` where a batch succeeds, else its refusal.
pub open spec fn batch_result(o: Result<Balances, Error>) -> Result<(), Error> {
    match o {
        Ok(_) => Ok(()),
        Err(e) => Err(e),
    }
}

/// The balances that a batch leaves: the new ones on success, the old ones otherwise.
pub open spec fn balances_after_batch(l: Balances, o: Result<Balances, Error>) -> Balances {
    match o {
        Ok(m) => m,
        Err(_) => l,
    }
}

} // verus!
