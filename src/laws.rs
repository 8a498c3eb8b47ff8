//! Properties that hold of the ledger across its operations, proved over the
//! model that the operations' contracts speak of.

use vstd::prelude::*;
use crate::contract::{Contract, TokenMetadataView};
use crate::model::{
    after_approval, after_burn, after_mint, after_step, after_transfer, apply_steps, approved_in,
    balance_in,
    batch_outcome, burn_error, first_step_error, mint_error, step_error, transfer_error, Approvals,
    Balances, Step,
};
use crate::supply::{lemma_total_insert, supply, total, value_or_zero};
use crate::types::{null_account, AccountId, Balance, Error, TokenId};

verus! {

/// A valid transfer takes `amount` from `from` and gives it to `to` (where
/// `to` has room for it below `u128::MAX`), and leaves the total supply of
/// every token as it was.
pub proof fn law_transfer_conserves(
    c: Contract,
    from: AccountId,
    to: AccountId,
    token: TokenId,
    amount: Balance,
)
    requires
        transfer_error(c.ledger(), c.approval_map(), c.caller(), from, to, token, amount) is None,
        balance_in(c.ledger(), to, token) + amount <= u128::MAX,
    ensures
        balance_in(after_transfer(c.ledger(), from, to, token, amount), from, token) + amount
            == balance_in(c.ledger(), from, token),
        balance_in(after_transfer(c.ledger(), from, to, token, amount), to, token) == balance_in(
            c.ledger(),
            to,
            token,
        ) + amount,
        forall|t: TokenId|
            supply(#[trigger] after_transfer(c.ledger(), from, to, token, amount), t) == supply(
                c.ledger(),
                t,
            ),
{
    let l = c.ledger();
    let inner = l[token];
    assert(c.balances@[token]@.dom().finite());
    let bf = balance_in(l, from, token);
    let bt = balance_in(l, to, token);
    let m1 = inner.insert(from, (bf - amount) as u128);
    lemma_total_insert(inner, from, (bf - amount) as u128);
    assert(value_or_zero(inner, from) == bf);
    assert(value_or_zero(m1, to) == bt);
    lemma_total_insert(m1, to, (bt + amount) as u128);
    assert(total(m1.insert(to, (bt + amount) as u128)) == total(inner));
}

/// A valid mint creates the token with `amount` held by `to`: its supply
/// grows from zero by `amount`, and no other token's supply changes.
pub proof fn law_mint_adds_supply(c: Contract, to: AccountId, token: TokenId, amount: Balance)
    requires
        mint_error(c.ledger(), to, token, amount) is None,
    ensures
        balance_in(after_mint(c.ledger(), to, token, amount), to, token) == amount,
        supply(after_mint(c.ledger(), to, token, amount), token) == supply(c.ledger(), token)
            + amount,
        forall|t: TokenId|
            t != token ==> supply(#[trigger] after_mint(c.ledger(), to, token, amount), t) == supply(
                c.ledger(),
                t,
            ),
{
    let e = Map::<AccountId, Balance>::empty();
    lemma_total_insert(e, to, amount);
    assert(e.dom().len() == 0);
}

/// A valid burn removes `amount` from `from` and from the total supply of the
/// token, and no other token's supply changes.
pub proof fn law_burn_removes_supply(
    c: Contract,
    from: AccountId,
    token: TokenId,
    amount: Balance,
)
    requires
        burn_error(c.ledger(), c.approval_map(), c.caller(), from, token, amount) is None,
    ensures
        balance_in(after_burn(c.ledger(), from, token, amount), from, token) + amount == balance_in(
            c.ledger(),
            from,
            token,
        ),
        supply(after_burn(c.ledger(), from, token, amount), token) + amount == supply(
            c.ledger(),
            token,
        ),
        forall|t: TokenId|
            t != token ==> supply(#[trigger] after_burn(c.ledger(), from, token, amount), t) == supply(
                c.ledger(),
                t,
            ),
{
    let l = c.ledger();
    let inner = l[token];
    assert(c.balances@[token]@.dom().finite());
    let bf = balance_in(l, from, token);
    lemma_total_insert(inner, from, (bf - amount) as u128);
    assert(value_or_zero(inner, from) == bf);
}

/// The balances after each of `steps` in turn changed them.
pub open spec fn run_steps(l: Balances, steps: Seq<(Step, TokenId, Balance)>) -> Balances
    decreases steps.len(),
{
    if steps.len() == 0 {
        l
    } else {
        let n = steps.len() - 1;
        let (s, token, amount) = steps[n];
        after_step(s, run_steps(l, steps.take(n)), token, amount)
    }
}

/// No step forgets a token: the known tokens only grow.
pub proof fn lemma_run_steps_keeps_tokens(l: Balances, steps: Seq<(Step, TokenId, Balance)>, t: TokenId)
    requires
        l.contains_key(t),
    ensures
        run_steps(l, steps).contains_key(t),
    decreases steps.len(),
{
    if steps.len() > 0 {
        lemma_run_steps_keeps_tokens(l, steps.take(steps.len() - 1), t);
    }
}

/// A token id can be minted only once: after a valid mint of `token`, whatever
/// transfers, burns and mints follow (even ones that empty every balance of
/// it), a further mint of `token` to a real account with a nonzero amount is
/// refused as a duplicate.
pub proof fn law_no_double_mint(
    l: Balances,
    to: AccountId,
    token: TokenId,
    amount: Balance,
    steps: Seq<(Step, TokenId, Balance)>,
    to2: AccountId,
    amount2: Balance,
)
    requires
        mint_error(l, to, token, amount) is None,
        to2 != null_account(),
        amount2 != 0,
    ensures
        mint_error(run_steps(after_mint(l, to, token, amount), steps), to2, token, amount2) == Some(
            Error::DuplicateMint,
        ),
{
    lemma_run_steps_keeps_tokens(after_mint(l, to, token, amount), steps, token);
}

/// Setting the same approval twice leaves what setting it once leaves.
pub proof fn law_approval_idempotent(
    a: Approvals,
    owner: AccountId,
    operator: AccountId,
    approved: bool,
)
    ensures
        after_approval(after_approval(a, owner, operator, approved), owner, operator, approved)
            == after_approval(a, owner, operator, approved),
{
    let once = after_approval(a, owner, operator, approved);
    assert(once[owner].insert(operator, approved) =~= once[owner]);
    assert(once.insert(owner, once[owner]) =~= once);
}

/// What the steps of one kind can do to the balances they start from: mints
/// only add tokens; transfers and burns only lower what their source holds.
pub open spec fn within(s: Step, l: Balances, m: Balances) -> bool {
    match s {
        Step::Mint(_) => forall|t: TokenId| l.contains_key(t) ==> #[trigger] m.contains_key(t),
        Step::Transfer(from, _) => forall|t: TokenId|
            #[trigger] balance_in(m, from, t) <= balance_in(l, from, t),
        Step::Burn(from) => forall|t: TokenId|
            #[trigger] balance_in(m, from, t) <= balance_in(l, from, t),
    }
}

proof fn lemma_step_within(
    s: Step,
    m: Balances,
    a: Approvals,
    sender: AccountId,
    token: TokenId,
    amount: Balance,
)
    requires
        step_error(s, m, a, sender, token, amount) is None,
    ensures
        within(s, m, after_step(s, m, token, amount)),
{
    let n = after_step(s, m, token, amount);
    match s {
        Step::Mint(_) => {},
        Step::Transfer(from, to) => {
            assert forall|t: TokenId| #[trigger] balance_in(n, from, t) <= balance_in(m, from, t) by {
                if t == token {
                    assert(n[token][from] == balance_in(m, from, token) - amount);
                }
            }
        },
        Step::Burn(from) => {
            assert forall|t: TokenId| #[trigger] balance_in(n, from, t) <= balance_in(m, from, t) by {
                if t == token {
                    assert(n[token][from] == balance_in(m, from, token) - amount);
                }
            }
        },
    }
}

proof fn lemma_steps_within(
    s: Step,
    l: Balances,
    a: Approvals,
    sender: AccountId,
    tokens: Seq<TokenId>,
    amounts: Seq<Balance>,
)
    requires
        tokens.len() == amounts.len(),
        apply_steps(s, l, a, sender, tokens, amounts) is Ok,
    ensures
        within(s, l, apply_steps(s, l, a, sender, tokens, amounts)->Ok_0),
        first_step_error(s, l, a, sender, tokens, amounts) is None,
    decreases tokens.len(),
{
    if tokens.len() > 0 {
        let n = tokens.len() - 1;
        let tk = tokens.take(n);
        let am = amounts.take(n);
        lemma_steps_within(s, l, a, sender, tk, am);
        let m = apply_steps(s, l, a, sender, tk, am)->Ok_0;
        lemma_step_within(s, m, a, sender, tokens[n], amounts[n]);
        let m2 = after_step(s, m, tokens[n], amounts[n]);
        match s {
            Step::Mint(_) => {
                assert(!l.contains_key(tokens[n]));
            },
            Step::Transfer(from, _) => {
                assert(balance_in(m, from, tokens[n]) <= balance_in(l, from, tokens[n]));
                assert forall|t: TokenId|
                    #[trigger] balance_in(m2, from, t) <= balance_in(l, from, t) by {
                    assert(balance_in(m2, from, t) <= balance_in(m, from, t));
                    assert(balance_in(m, from, t) <= balance_in(l, from, t));
                }
            },
            Step::Burn(from) => {
                assert(balance_in(m, from, tokens[n]) <= balance_in(l, from, tokens[n]));
                assert forall|t: TokenId|
                    #[trigger] balance_in(m2, from, t) <= balance_in(l, from, t) by {
                    assert(balance_in(m2, from, t) <= balance_in(m, from, t));
                    assert(balance_in(m, from, t) <= balance_in(l, from, t));
                }
            },
        }
    }
}

/// A batch is its singular steps run in order: where they all succeed one
/// after another, the batch succeeds with the same balances; where one of
/// them fails, the batch fails (and then, by the batch operations'
/// contracts, changes nothing).
pub proof fn law_batch_is_sequential(
    s: Step,
    l: Balances,
    a: Approvals,
    sender: AccountId,
    tokens: Seq<TokenId>,
    amounts: Seq<Balance>,
)
    requires
        tokens.len() == amounts.len(),
    ensures
        apply_steps(s, l, a, sender, tokens, amounts) is Ok ==> batch_outcome(
            s,
            l,
            a,
            sender,
            tokens,
            amounts,
        ) == apply_steps(s, l, a, sender, tokens, amounts),
        apply_steps(s, l, a, sender, tokens, amounts) is Err ==> batch_outcome(
            s,
            l,
            a,
            sender,
            tokens,
            amounts,
        ) is Err,
{
    if apply_steps(s, l, a, sender, tokens, amounts) is Ok {
        lemma_steps_within(s, l, a, sender, tokens, amounts);
    }
}

/// Minting two tokens in one batch leaves the balances that two single mints
/// in a row leave.
pub proof fn law_mint_batch_of_two(
    l: Balances,
    a: Approvals,
    sender: AccountId,
    to: AccountId,
    t0: TokenId,
    t1: TokenId,
    a0: Balance,
    a1: Balance,
)
    requires
        mint_error(l, to, t0, a0) is None,
        mint_error(after_mint(l, to, t0, a0), to, t1, a1) is None,
    ensures
        batch_outcome(Step::Mint(to), l, a, sender, seq![t0, t1], seq![a0, a1]) == Ok::<
            Balances,
            Error,
        >(after_mint(after_mint(l, to, t0, a0), to, t1, a1)),
{
    let tokens = seq![t0, t1];
    let amounts = seq![a0, a1];
    assert(tokens.take(1).take(0) =~= Seq::<TokenId>::empty());
    assert(amounts.take(1).take(0) =~= Seq::<Balance>::empty());
    assert(tokens.take(1)[0] == t0);
    assert(amounts.take(1)[0] == a0);
    assert(tokens.take(1).len() == 1);
    assert(apply_steps(Step::Mint(to), l, a, sender, tokens.take(1).take(0), amounts.take(1).take(0))
        == Ok::<Balances, Error>(l));
    assert(apply_steps(Step::Mint(to), l, a, sender, tokens.take(1), amounts.take(1)) == Ok::<
        Balances,
        Error,
    >(after_mint(l, to, t0, a0)));
    assert(tokens[1] == t1);
    assert(amounts[1] == a1);
    law_batch_is_sequential(Step::Mint(to), l, a, sender, tokens, amounts);
}

/// Approval gates acting for another account: a caller that is neither the
/// holder nor its approved operator is refused a transfer of a nonzero
/// amount; once the holder approves it, that refusal is gone, and the
/// transfer goes through wherever the balance and the accounts allow it.
pub proof fn law_approval_gating(
    l: Balances,
    a: Approvals,
    holder: AccountId,
    operator: AccountId,
    to: AccountId,
    token: TokenId,
    amount: Balance,
)
    requires
        operator != holder,
        !approved_in(a, holder, operator),
        amount != 0,
    ensures
        transfer_error(l, a, operator, holder, to, token, amount) == Some(Error::Unauthorized),
        approved_in(after_approval(a, holder, operator, true), holder, operator),
        transfer_error(l, after_approval(a, holder, operator, true), operator, holder, to, token, amount)
            == transfer_error(l, a, holder, holder, to, token, amount),
{
}

/// Metadata is what the last update left: the stored value after an update
/// with `Some(m)`, nothing after an update with `None`.
pub proof fn law_metadata_visibility(
    before: Map<TokenId, TokenMetadataView>,
    token: TokenId,
    m: TokenMetadataView,
)
    ensures
        before.insert(token, m).contains_key(token),
        before.insert(token, m)[token] == m,
        !before.insert(token, m).remove(token).contains_key(token),
{
}

} // verus!
