//! Total supply of a token: the sum of its balances over all accounts.

use vstd::prelude::*;
use crate::model::Balances;
use crate::types::{AccountId, Balance, TokenId};

verus! {

/// The sum of the balances in a finite map of accounts.
pub open spec fn total(m: Map<AccountId, Balance>) -> int
    decreases m.dom().len(),
{
    if m.dom().finite() && m.dom().len() > 0 {
        let k = m.dom().choose();
        m[k] + total(m.remove(k))
    } else {
        0
    }
}

/// The total supply of `token`: zero for an unknown token.
pub open spec fn supply(l: Balances, token: TokenId) -> int {
    if l.contains_key(token) {
        total(l[token])
    } else {
        0
    }
}

/// The value stored for `k`, or zero.
pub open spec fn value_or_zero(m: Map<AccountId, Balance>, k: AccountId) -> int {
    if m.contains_key(k) {
        m[k] as int
    } else {
        0
    }
}

/// Any key can be taken out of the sum first.
pub proof fn lemma_total_remove(m: Map<AccountId, Balance>, k: AccountId)
    requires
        m.dom().finite(),
        m.contains_key(k),
    ensures
        total(m) == m[k] + total(m.remove(k)),
    decreases m.dom().len(),
{
    let c = m.dom().choose();
    if c != k {
        let mc = m.remove(c);
        let mk = m.remove(k);
        lemma_total_remove(mc, k);
        lemma_total_remove(mk, c);
        assert(mc.remove(k) =~= mk.remove(c));
    }
}

/// Storing `v` for `k` changes the sum by `v` less what `k` held before.
pub proof fn lemma_total_insert(m: Map<AccountId, Balance>, k: AccountId, v: Balance)
    requires
        m.dom().finite(),
    ensures
        total(m.insert(k, v)) == total(m) - value_or_zero(m, k) + v,
{
    let n = m.insert(k, v);
    lemma_total_remove(n, k);
    assert(n.remove(k) =~= m.remove(k));
    if m.contains_key(k) {
        lemma_total_remove(m, k);
    } else {
        assert(m.remove(k) =~= m);
    }
}

} // verus!
