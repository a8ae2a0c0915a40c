//! The escrow state machine: three operations that validate identity, state
//! and time preconditions, move funds through the custody-transfer
//! primitive, and advance the record's state. Each operation either fully
//! commits (state advances, transfers complete) or fully aborts (state and
//! balances unchanged); no intermediate result is ever observable.

use vstd::prelude::*;

use crate::custody::TokenAccount;
use crate::custody::transfer;
use crate::custody::transfer_check;
use crate::errors::ErrorCode;
use crate::record::EscrowAccount;
use crate::record::EscrowState;
use crate::record::TIMEOUT_SECONDS;

verus! {

/// The accounts `initialize_escrow` works on: the two parties and the two
/// custody locations the deposit moves between.
pub struct InitializeEscrow {
    /// Identity of the depositing caller.
    pub buyer: u64,
    /// Identity of the party owed the principal.
    pub seller: u64,
    /// The buyer's funding source.
    pub buyer_token_account: TokenAccount,
    /// The freshly created custody vault for this escrow.
    pub escrow_vault: TokenAccount,
}

/// The accounts `confirm_delivery` works on.
pub struct ConfirmDelivery {
    /// Identity of the caller, as verified by the authentication layer.
    pub buyer: u64,
    /// The escrow record being settled.
    pub escrow_account: EscrowAccount,
    /// The custody vault holding the deposit.
    pub escrow_vault: TokenAccount,
    /// The seller's receiving account.
    pub seller_token_account: TokenAccount,
    /// The treasury's fee-receiving account.
    pub treasury_token_account: TokenAccount,
}

/// The accounts `refund_timeout` works on. No caller identity is carried:
/// anyone may trigger a refund once the deadline has passed.
pub struct RefundTimeout {
    /// The escrow record being refunded.
    pub escrow_account: EscrowAccount,
    /// The custody vault holding the deposit.
    pub escrow_vault: TokenAccount,
    /// The buyer's receiving account.
    pub buyer_token_account: TokenAccount,
    /// The treasury's fee-receiving account.
    pub treasury_token_account: TokenAccount,
}

/// The exact outcome `initialize_escrow` is obliged to produce: the first
/// failing precondition decides the error.
pub open spec fn initialize_check(pre: InitializeEscrow, amount: u64, fee: u64) -> Result<
    (),
    ErrorCode,
> {
    if amount + fee > u64::MAX {
        Err(ErrorCode::NumericalOverflow)
    } else {
        transfer_check(pre.buyer_token_account, pre.escrow_vault, (amount + fee) as u64, pre.buyer)
    }
}

/// How the state `initialize_escrow` leaves behind relates to the state it
/// found: on any error nothing changes and no record exists; on success the
/// record is created in `Initialized`, the deposit sits in the vault, and
/// the vault's registered authority is the one derived from the record.
pub open spec fn initialize_rel(
    pre: InitializeEscrow,
    amount: u64,
    fee: u64,
    listing_id: String,
    now: i64,
    bump: u8,
    post: InitializeEscrow,
    r: Result<EscrowAccount, ErrorCode>,
) -> bool {
    match initialize_check(pre, amount, fee) {
        Err(c) => r == Err::<EscrowAccount, ErrorCode>(c) && post == pre,
        Ok(()) => {
            let rec = EscrowAccount::spec_new(
                pre.buyer,
                pre.seller,
                listing_id,
                amount,
                fee,
                now,
                bump,
            );
            &&& r == Ok::<EscrowAccount, ErrorCode>(rec)
            &&& post.buyer == pre.buyer
            &&& post.seller == pre.seller
            &&& post.buyer_token_account == (TokenAccount {
                owner: pre.buyer_token_account.owner,
                balance: (pre.buyer_token_account.balance - amount - fee) as u64,
            })
            &&& post.escrow_vault == (TokenAccount {
                owner: rec.spec_authority(),
                balance: (pre.escrow_vault.balance + amount + fee) as u64,
            })
        },
    }
}

/// Creates the escrow record and moves `amount + fee` from the buyer's
/// funding source into the custody vault, authorized by the buyer directly.
/// If anything fails, no record is left behind and no balance moves.
pub fn initialize_escrow(
    ctx: &mut InitializeEscrow,
    amount: u64,
    fee: u64,
    listing_id: String,
    now: i64,
    bump: u8,
) -> (r: Result<EscrowAccount, ErrorCode>)
    requires
        old(ctx).escrow_vault.balance == 0,
        now + TIMEOUT_SECONDS <= i64::MAX,
    ensures
        initialize_rel(*old(ctx), amount, fee, listing_id, now, bump, *final(ctx), r),
        r is Ok ==> r->Ok_0.wf() && r->Ok_0.state is Initialized && r->Ok_0.created_at == now,
{
    if amount > u64::MAX - fee {
        return Err(ErrorCode::NumericalOverflow);
    }
    let total: u64 = amount + fee;
    if ctx.buyer_token_account.owner != ctx.buyer {
        return Err(ErrorCode::Unauthorized);
    }
    if ctx.buyer_token_account.balance < total {
        return Err(ErrorCode::InsufficientFunds);
    }
    let rec = match EscrowAccount::create(
        ctx.buyer,
        ctx.seller,
        listing_id,
        amount,
        fee,
        now,
        bump,
    ) {
        Ok(rec) => rec,
        Err(c) => {
            return Err(c);
        },
    };
    ctx.escrow_vault.owner = rec.authority();
    match transfer(&mut ctx.buyer_token_account, &mut ctx.escrow_vault, total, ctx.buyer) {
        Ok(()) => Ok(rec),
        Err(c) => Err(c),
    }
}

/// The exact outcome `confirm_delivery` is obliged to produce: state check,
/// then caller check, then the check that the receiving account is the
/// stored seller's, then the two custody transfers in order (principal to
/// the seller, fee to the treasury), the first failing check deciding the
/// error.
pub open spec fn confirm_check(pre: ConfirmDelivery) -> Result<(), ErrorCode> {
    let e = pre.escrow_account;
    if !(e.state is Initialized) {
        Err(ErrorCode::InvalidState)
    } else if pre.buyer != e.buyer {
        Err(ErrorCode::Unauthorized)
    } else if pre.seller_token_account.owner != e.seller {
        Err(ErrorCode::Unauthorized)
    } else {
        match transfer_check(pre.escrow_vault, pre.seller_token_account, e.amount, e.spec_authority()) {
            Err(c) => Err(c),
            Ok(()) => {
                let vault_after = TokenAccount {
                    owner: pre.escrow_vault.owner,
                    balance: (pre.escrow_vault.balance - e.amount) as u64,
                };
                transfer_check(vault_after, pre.treasury_token_account, e.fee, e.spec_authority())
            },
        }
    }
}

/// How the state `confirm_delivery` leaves behind relates to the state it
/// found: on any error nothing changes; on success the record moves to
/// `Completed`, the seller gains exactly the principal and the treasury
/// exactly the fee, both out of the vault.
pub open spec fn confirm_rel(pre: ConfirmDelivery, post: ConfirmDelivery, r: Result<
    (),
    ErrorCode,
>) -> bool {
    match confirm_check(pre) {
        Err(c) => r == Err::<(), ErrorCode>(c) && post == pre,
        Ok(()) => {
            let e = pre.escrow_account;
            &&& r == Ok::<(), ErrorCode>(())
            &&& post.buyer == pre.buyer
            &&& post.escrow_account == (EscrowAccount {
                state: EscrowState::Completed,
                ..pre.escrow_account
            })
            &&& post.escrow_vault == (TokenAccount {
                owner: pre.escrow_vault.owner,
                balance: (pre.escrow_vault.balance - e.amount - e.fee) as u64,
            })
            &&& post.seller_token_account == (TokenAccount {
                owner: pre.seller_token_account.owner,
                balance: (pre.seller_token_account.balance + e.amount) as u64,
            })
            &&& post.treasury_token_account == (TokenAccount {
                owner: pre.treasury_token_account.owner,
                balance: (pre.treasury_token_account.balance + e.fee) as u64,
            })
        },
    }
}

/// Settles the escrow on the buyer's confirmation: moves the principal to
/// the seller and the fee to the treasury under the derived custody
/// authority, then commits `Completed`. Both transfers are validated before
/// either executes, so a failure leaves every balance and the record's
/// state untouched; the interim `Delivered` marker is internal bookkeeping
/// and never survives the call.
pub fn confirm_delivery(ctx: &mut ConfirmDelivery) -> (r: Result<(), ErrorCode>)
    ensures
        confirm_rel(*old(ctx), *final(ctx), r),
        r is Err ==> *final(ctx) == *old(ctx),
{
    if ctx.escrow_account.state != EscrowState::Initialized {
        return Err(ErrorCode::InvalidState);
    }
    if ctx.buyer != ctx.escrow_account.buyer {
        return Err(ErrorCode::Unauthorized);
    }
    // The principal may only be credited to an account of the stored seller.
    if ctx.seller_token_account.owner != ctx.escrow_account.seller {
        return Err(ErrorCode::Unauthorized);
    }
    let amount = ctx.escrow_account.amount;
    let fee = ctx.escrow_account.fee;
    let auth = ctx.escrow_account.authority();
    // Validate both transfers up front: the pair must settle all-or-nothing.
    if ctx.escrow_vault.owner != auth {
        return Err(ErrorCode::Unauthorized);
    }
    if ctx.escrow_vault.balance < amount {
        return Err(ErrorCode::InsufficientFunds);
    }
    if amount > u64::MAX - ctx.seller_token_account.balance {
        return Err(ErrorCode::NumericalOverflow);
    }
    if ctx.escrow_vault.balance - amount < fee {
        return Err(ErrorCode::InsufficientFunds);
    }
    if fee > u64::MAX - ctx.treasury_token_account.balance {
        return Err(ErrorCode::NumericalOverflow);
    }
    ctx.escrow_account.state = EscrowState::Delivered;
    match transfer(&mut ctx.escrow_vault, &mut ctx.seller_token_account, amount, auth) {
        Ok(()) => (),
        Err(c) => {
            return Err(c);
        },
    }
    match transfer(&mut ctx.escrow_vault, &mut ctx.treasury_token_account, fee, auth) {
        Ok(()) => (),
        Err(c) => {
            return Err(c);
        },
    }
    ctx.escrow_account.state = EscrowState::Completed;
    Ok(())
}

/// The exact outcome `refund_timeout` is obliged to produce: state check,
/// then the strict-greater-than deadline check, then the check that the
/// receiving account is the stored buyer's — the caller is unconstrained,
/// so the destination must be — then the two custody transfers in order
/// (principal back to the buyer, fee to the treasury).
pub open spec fn refund_check(pre: RefundTimeout, now: i64) -> Result<(), ErrorCode> {
    let e = pre.escrow_account;
    if !(e.state is Initialized) {
        Err(ErrorCode::InvalidState)
    } else if now <= e.created_at + TIMEOUT_SECONDS {
        Err(ErrorCode::TimeoutNotReached)
    } else if pre.buyer_token_account.owner != e.buyer {
        Err(ErrorCode::Unauthorized)
    } else {
        match transfer_check(pre.escrow_vault, pre.buyer_token_account, e.amount, e.spec_authority()) {
            Err(c) => Err(c),
            Ok(()) => {
                let vault_after = TokenAccount {
                    owner: pre.escrow_vault.owner,
                    balance: (pre.escrow_vault.balance - e.amount) as u64,
                };
                transfer_check(vault_after, pre.treasury_token_account, e.fee, e.spec_authority())
            },
        }
    }
}

/// How the state `refund_timeout` leaves behind relates to the state it
/// found: on any error nothing changes; on success the record moves to
/// `Cancelled`, the buyer gets the principal back and the treasury keeps
/// the fee.
pub open spec fn refund_rel(pre: RefundTimeout, now: i64, post: RefundTimeout, r: Result<
    (),
    ErrorCode,
>) -> bool {
    match refund_check(pre, now) {
        Err(c) => r == Err::<(), ErrorCode>(c) && post == pre,
        Ok(()) => {
            let e = pre.escrow_account;
            &&& r == Ok::<(), ErrorCode>(())
            &&& post.escrow_account == (EscrowAccount {
                state: EscrowState::Cancelled,
                ..pre.escrow_account
            })
            &&& post.escrow_vault == (TokenAccount {
                owner: pre.escrow_vault.owner,
                balance: (pre.escrow_vault.balance - e.amount - e.fee) as u64,
            })
            &&& post.buyer_token_account == (TokenAccount {
                owner: pre.buyer_token_account.owner,
                balance: (pre.buyer_token_account.balance + e.amount) as u64,
            })
            &&& post.treasury_token_account == (TokenAccount {
                owner: pre.treasury_token_account.owner,
                balance: (pre.treasury_token_account.balance + e.fee) as u64,
            })
        },
    }
}

/// Refunds an unconfirmed escrow once the grace period has strictly
/// elapsed: moves the principal back to the buyer and the fee to the
/// treasury under the derived custody authority, then commits `Cancelled`.
/// A request at exactly the deadline is rejected. Any caller may invoke
/// this; it benefits the buyer and penalizes inaction, not trust.
pub fn refund_timeout(ctx: &mut RefundTimeout, now: i64) -> (r: Result<(), ErrorCode>)
    requires
        old(ctx).escrow_account.wf(),
    ensures
        refund_rel(*old(ctx), now, *final(ctx), r),
        r is Err ==> *final(ctx) == *old(ctx),
{
    if ctx.escrow_account.state != EscrowState::Initialized {
        return Err(ErrorCode::InvalidState);
    }
    let deadline: i64 = ctx.escrow_account.created_at + TIMEOUT_SECONDS;
    if now <= deadline {
        return Err(ErrorCode::TimeoutNotReached);
    }
    // Any caller may trigger the refund, so the destination must be bound:
    // the principal may only be credited to an account of the stored buyer.
    if ctx.buyer_token_account.owner != ctx.escrow_account.buyer {
        return Err(ErrorCode::Unauthorized);
    }
    let amount = ctx.escrow_account.amount;
    let fee = ctx.escrow_account.fee;
    let auth = ctx.escrow_account.authority();
    // Validate both transfers up front: the pair must settle all-or-nothing.
    if ctx.escrow_vault.owner != auth {
        return Err(ErrorCode::Unauthorized);
    }
    if ctx.escrow_vault.balance < amount {
        return Err(ErrorCode::InsufficientFunds);
    }
    if amount > u64::MAX - ctx.buyer_token_account.balance {
        return Err(ErrorCode::NumericalOverflow);
    }
    if ctx.escrow_vault.balance - amount < fee {
        return Err(ErrorCode::InsufficientFunds);
    }
    if fee > u64::MAX - ctx.treasury_token_account.balance {
        return Err(ErrorCode::NumericalOverflow);
    }
    ctx.escrow_account.state = EscrowState::Refunded;
    match transfer(&mut ctx.escrow_vault, &mut ctx.buyer_token_account, amount, auth) {
        Ok(()) => (),
        Err(c) => {
            return Err(c);
        },
    }
    match transfer(&mut ctx.escrow_vault, &mut ctx.treasury_token_account, fee, auth) {
        Ok(()) => (),
        Err(c) => {
            return Err(c);
        },
    }
    ctx.escrow_account.state = EscrowState::Cancelled;
    Ok(())
}

} // verus!
