//! The custody-transfer primitive: moves an exact amount between two custody
//! locations under a presented authority, all-or-nothing.

use vstd::prelude::*;

use crate::errors::ErrorCode;

verus! {

/// One custody location in the ledger: a balance together with the registered
/// authority that alone may move funds out of it.
#[derive(Clone, Copy, Debug, PartialEq, Eq, Structural)]
pub struct TokenAccount {
    /// The authority handle registered for this location; only transfers
    /// presenting this handle may debit it.
    pub owner: u64,
    /// The funds currently held at this location.
    pub balance: u64,
}

/// The exact outcome `transfer` is obliged to produce for the given inputs:
/// the first failing check decides the error, in this order.
pub open spec fn transfer_check(
    from: TokenAccount,
    to: TokenAccount,
    amount: u64,
    authority: u64,
) -> Result<(), ErrorCode> {
    if from.owner != authority {
        Err(ErrorCode::Unauthorized)
    } else if from.balance < amount {
        Err(ErrorCode::InsufficientFunds)
    } else if to.balance + amount > u64::MAX {
        Err(ErrorCode::NumericalOverflow)
    } else {
        Ok(())
    }
}

/// Moves exactly `amount` from `from` to `to`, authorized by `authority`.
/// On failure nothing changes: no partial transfer is ever observable.
pub fn transfer(
    from: &mut TokenAccount,
    to: &mut TokenAccount,
    amount: u64,
    authority: u64,
) -> (r: Result<(), ErrorCode>)
    ensures
        r == transfer_check(*old(from), *old(to), amount, authority),
        r is Ok ==> *final(from) == (TokenAccount {
            owner: old(from).owner,
            balance: (old(from).balance - amount) as u64,
        }),
        r is Ok ==> *final(to) == (TokenAccount {
            owner: old(to).owner,
            balance: (old(to).balance + amount) as u64,
        }),
        r is Err ==> *final(from) == *old(from) && *final(to) == *old(to),
{
    if from.owner != authority {
        return Err(ErrorCode::Unauthorized);
    }
    if from.balance < amount {
        return Err(ErrorCode::InsufficientFunds);
    }
    if amount > u64::MAX - to.balance {
        return Err(ErrorCode::NumericalOverflow);
    }
    from.balance = from.balance - amount;
    to.balance = to.balance + amount;
    Ok(())
}

} // verus!
