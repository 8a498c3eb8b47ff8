//! Identity and numeric types shared by the whole ledger.

use vstd::prelude::*;

verus! {

/// An account identity: the 32 bytes of an actor address, held as two
/// 128-bit halves. `(0, 0)` is the null account.
pub type AccountId = (u128, u128);

/// A token id, chosen by whoever mints it.
pub type TokenId = u128;

/// A balance of one token held by one account.
pub type Balance = u128;

/// A type with a distinguished zero value.
pub trait Zero: Sized {
    /// The zero value.
    spec fn spec_zero() -> Self;

    fn zero() -> (r: Self)
        ensures
            r == Self::spec_zero(),
    ;

    fn is_zero(&self) -> (r: bool)
        ensures
            r == (*self == Self::spec_zero()),
    ;
}

impl Zero for AccountId {
    open spec fn spec_zero() -> Self {
        (0, 0)
    }

    fn zero() -> (r: Self) {
        (0, 0)
    }

    fn is_zero(&self) -> (r: bool) {
        self.0 == 0 && self.1 == 0
    }
}

/// The null account, the source of mints and the target that transfers may not reach.
pub open spec fn null_account() -> AccountId {
    (0, 0)
}

/// Whether two account identities are the same.
pub fn same_account(a: &AccountId, b: &AccountId) -> (r: bool)
    ensures
        r == (*a == *b),
{
    a.0 == b.0 && a.1 == b.1
}

/// Why a request was refused.
#[derive(Clone, Copy, Debug, PartialEq, Eq, Structural)]
pub enum Error {
    /// Mint, burn or transfer of amount 0.
    ZeroAmount,
    /// Transfer or burn of more than the account holds.
    InsufficientBalance,
    /// The caller may not act for the account, is not the owner, or holds none of the token.
    Unauthorized,
    /// Transfer from an account to itself.
    SelfTransferNotPermitted,
    /// Transfer or mint to the null account.
    TransferToNullAccount,
    /// Mint of a token id that already exists.
    DuplicateMint,
    /// Paired sequences of unequal length.
    LengthMismatch,
    /// Metadata update of a token id that was never minted.
    UnknownToken,
}

} // verus!
