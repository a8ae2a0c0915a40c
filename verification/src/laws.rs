//! The guarantees the escrow engine owes its callers, each stated over the
//! operation relations of `machine` and proved once and for all.

use vstd::prelude::*;

use crate::errors::ErrorCode;
use crate::machine::ConfirmDelivery;
use crate::machine::InitializeEscrow;
use crate::machine::RefundTimeout;
use crate::machine::confirm_rel;
use crate::machine::initialize_rel;
use crate::machine::refund_rel;
use crate::record::EscrowAccount;
use crate::record::TIMEOUT_SECONDS;

verus! {

/// Overflow guard: whenever `amount + fee` does not fit the value type,
/// `initialize_escrow` fails with `NumericalOverflow`, no record is created
/// and no balance moves.
pub proof fn lemma_overflow_guard(
    pre: InitializeEscrow,
    amount: u64,
    fee: u64,
    listing_id: String,
    now: i64,
    bump: u8,
    post: InitializeEscrow,
    r: Result<EscrowAccount, ErrorCode>,
)
    requires
        initialize_rel(pre, amount, fee, listing_id, now, bump, post, r),
        amount + fee > u64::MAX,
    ensures
        r == Err::<EscrowAccount, ErrorCode>(ErrorCode::NumericalOverflow),
        post == pre,
{
}

/// Single happy path: after `initialize_escrow` into a fresh vault and a
/// `confirm_delivery` by the stored buyer, exactly the principal reaches
/// the seller and exactly the fee reaches the treasury, the vault is left
/// at zero, and the record ends in `Completed`.
pub proof fn lemma_single_happy_path(
    pre: InitializeEscrow,
    amount: u64,
    fee: u64,
    listing_id: String,
    now: i64,
    bump: u8,
    mid: InitializeEscrow,
    r1: Result<EscrowAccount, ErrorCode>,
    cpre: ConfirmDelivery,
    cpost: ConfirmDelivery,
    r2: Result<(), ErrorCode>,
)
    requires
        initialize_rel(pre, amount, fee, listing_id, now, bump, mid, r1),
        pre.escrow_vault.balance == 0,
        r1 is Ok,
        confirm_rel(cpre, cpost, r2),
        cpre.buyer == pre.buyer,
        cpre.escrow_account == r1->Ok_0,
        cpre.escrow_vault == mid.escrow_vault,
        cpre.seller_token_account.owner == pre.seller,
        cpre.seller_token_account.balance + amount <= u64::MAX,
        cpre.treasury_token_account.balance + fee <= u64::MAX,
    ensures
        r2 == Ok::<(), ErrorCode>(()),
        cpost.escrow_account.state is Completed,
        cpost.seller_token_account.balance == cpre.seller_token_account.balance + amount,
        cpost.treasury_token_account.balance == cpre.treasury_token_account.balance + fee,
        cpost.escrow_vault.balance == 0,
{
}

/// Timeout path: after `initialize_escrow` into a fresh vault and a
/// `refund_timeout` strictly past the deadline, the principal returns to
/// the buyer, the treasury keeps the fee, the vault is left at zero, and
/// the record ends in `Cancelled`.
pub proof fn lemma_timeout_path(
    pre: InitializeEscrow,
    amount: u64,
    fee: u64,
    listing_id: String,
    now: i64,
    bump: u8,
    mid: InitializeEscrow,
    r1: Result<EscrowAccount, ErrorCode>,
    rpre: RefundTimeout,
    later: i64,
    rpost: RefundTimeout,
    r2: Result<(), ErrorCode>,
)
    requires
        initialize_rel(pre, amount, fee, listing_id, now, bump, mid, r1),
        pre.escrow_vault.balance == 0,
        r1 is Ok,
        refund_rel(rpre, later, rpost, r2),
        rpre.escrow_account == r1->Ok_0,
        rpre.escrow_vault == mid.escrow_vault,
        later > now + TIMEOUT_SECONDS,
        rpre.buyer_token_account.owner == pre.buyer,
        rpre.buyer_token_account.balance + amount <= u64::MAX,
        rpre.treasury_token_account.balance + fee <= u64::MAX,
    ensures
        r2 == Ok::<(), ErrorCode>(()),
        rpost.escrow_account.state is Cancelled,
        rpost.buyer_token_account.balance == rpre.buyer_token_account.balance + amount,
        rpost.treasury_token_account.balance == rpre.treasury_token_account.balance + fee,
        rpost.escrow_vault.balance == 0,
{
}

/// Timeout boundary, rejecting side: a refund requested at exactly
/// `created_at + TIMEOUT_SECONDS` fails with `TimeoutNotReached` and
/// changes nothing; the deadline is strict greater-than.
pub proof fn lemma_timeout_boundary_rejected(
    pre: RefundTimeout,
    now: i64,
    post: RefundTimeout,
    r: Result<(), ErrorCode>,
)
    requires
        refund_rel(pre, now, post, r),
        pre.escrow_account.state is Initialized,
        now == pre.escrow_account.created_at + TIMEOUT_SECONDS,
    ensures
        r == Err::<(), ErrorCode>(ErrorCode::TimeoutNotReached),
        post == pre,
{
}

/// Timeout boundary, accepting side: one second past the deadline, a
/// refund of a funded, well-registered escrow into the buyer's own account
/// succeeds.
pub proof fn lemma_timeout_boundary_passed(
    pre: RefundTimeout,
    now: i64,
    post: RefundTimeout,
    r: Result<(), ErrorCode>,
)
    requires
        refund_rel(pre, now, post, r),
        pre.escrow_account.state is Initialized,
        now == pre.escrow_account.created_at + TIMEOUT_SECONDS + 1,
        pre.buyer_token_account.owner == pre.escrow_account.buyer,
        pre.escrow_vault.owner == pre.escrow_account.spec_authority(),
        pre.escrow_vault.balance >= pre.escrow_account.amount + pre.escrow_account.fee,
        pre.buyer_token_account.balance + pre.escrow_account.amount <= u64::MAX,
        pre.treasury_token_account.balance + pre.escrow_account.fee <= u64::MAX,
    ensures
        r == Ok::<(), ErrorCode>(()),
        post.escrow_account.state is Cancelled,
{
}

/// State exclusivity: once a `confirm_delivery` has committed, any further
/// `confirm_delivery` against the same record fails with `InvalidState`
/// and moves nothing. The ledger substrate serializes the operations on one
/// record, so this is also the fate of the loser of two racing
/// confirmations: exactly one commits, the other observes `InvalidState`.
pub proof fn lemma_confirm_exclusive(
    pre: ConfirmDelivery,
    post: ConfirmDelivery,
    r1: Result<(), ErrorCode>,
    post2: ConfirmDelivery,
    r2: Result<(), ErrorCode>,
)
    requires
        confirm_rel(pre, post, r1),
        r1 is Ok,
        confirm_rel(post, post2, r2),
    ensures
        r2 == Err::<(), ErrorCode>(ErrorCode::InvalidState),
        post2 == post,
{
}

/// Authorization: a `confirm_delivery` invoked by any identity other than
/// the stored buyer fails with `Unauthorized` and moves nothing.
pub proof fn lemma_confirm_unauthorized(
    pre: ConfirmDelivery,
    post: ConfirmDelivery,
    r: Result<(), ErrorCode>,
)
    requires
        confirm_rel(pre, post, r),
        pre.escrow_account.state is Initialized,
        pre.buyer != pre.escrow_account.buyer,
    ensures
        r == Err::<(), ErrorCode>(ErrorCode::Unauthorized),
        post == pre,
{
}

/// Atomicity: whenever `confirm_delivery` reports any failure, the record
/// is still in its old state and every balance — the vault's included — is
/// exactly what it was: no funds are ever missing after a failed
/// settlement, and the record is never left half-settled.
pub proof fn lemma_confirm_atomic(
    pre: ConfirmDelivery,
    post: ConfirmDelivery,
    r: Result<(), ErrorCode>,
)
    requires
        confirm_rel(pre, post, r),
        r is Err,
    ensures
        post == pre,
        post.escrow_account.state == pre.escrow_account.state,
        post.escrow_vault.balance == pre.escrow_vault.balance,
{
}

/// Terminal states are final: against a record in `Completed`, `Refunded`
/// or `Cancelled`, both settlement operations fail with `InvalidState` and
/// move nothing.
pub proof fn lemma_terminal_is_final(
    cpre: ConfirmDelivery,
    cpost: ConfirmDelivery,
    rc: Result<(), ErrorCode>,
    rpre: RefundTimeout,
    now: i64,
    rpost: RefundTimeout,
    rr: Result<(), ErrorCode>,
)
    requires
        confirm_rel(cpre, cpost, rc),
        cpre.escrow_account.state.is_terminal(),
        refund_rel(rpre, now, rpost, rr),
        rpre.escrow_account.state.is_terminal(),
    ensures
        rc == Err::<(), ErrorCode>(ErrorCode::InvalidState),
        cpost == cpre,
        rr == Err::<(), ErrorCode>(ErrorCode::InvalidState),
        rpost == rpre,
{
}

/// Settlement pays the seller: a `confirm_delivery` offered a receiving
/// account that the stored seller does not own fails with `Unauthorized`
/// and moves nothing; the principal can only ever be credited to the
/// seller's own account.
pub proof fn lemma_settlement_pays_the_seller(
    pre: ConfirmDelivery,
    post: ConfirmDelivery,
    r: Result<(), ErrorCode>,
)
    requires
        confirm_rel(pre, post, r),
        pre.seller_token_account.owner != pre.escrow_account.seller,
    ensures
        r is Err,
        post == pre,
        pre.escrow_account.state is Initialized && pre.buyer == pre.escrow_account.buyer ==> r
            == Err::<(), ErrorCode>(ErrorCode::Unauthorized),
{
}

/// Refund pays the buyer: a `refund_timeout` offered a receiving account
/// that the stored buyer does not own fails with `Unauthorized` and moves
/// nothing — so the deliberately unconstrained caller can only ever direct
/// the refunded principal to the buyer's own account.
pub proof fn lemma_refund_pays_the_buyer(
    pre: RefundTimeout,
    now: i64,
    post: RefundTimeout,
    r: Result<(), ErrorCode>,
)
    requires
        refund_rel(pre, now, post, r),
        pre.buyer_token_account.owner != pre.escrow_account.buyer,
    ensures
        r is Err,
        post == pre,
        pre.escrow_account.state is Initialized && now > pre.escrow_account.created_at
            + TIMEOUT_SECONDS ==> r == Err::<(), ErrorCode>(ErrorCode::Unauthorized),
{
}

} // verus!
