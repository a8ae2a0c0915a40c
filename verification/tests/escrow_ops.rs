use dealshield::authority::derive_authority;
use dealshield::custody::{transfer, TokenAccount};
use dealshield::errors::ErrorCode;
use dealshield::machine::{
    confirm_delivery, initialize_escrow, refund_timeout, ConfirmDelivery, InitializeEscrow,
    RefundTimeout,
};
use dealshield::record::{EscrowAccount, EscrowState, TIMEOUT_SECONDS};

const BUYER: u64 = 11;
const SELLER: u64 = 22;
const TREASURY: u64 = 33;

fn funded_init(amount: u64, fee: u64, funding: u64, now: i64) -> (InitializeEscrow, EscrowAccount) {
    let mut ctx = InitializeEscrow {
        buyer: BUYER,
        seller: SELLER,
        buyer_token_account: TokenAccount {
            owner: BUYER,
            balance: funding,
        },
        escrow_vault: TokenAccount {
            owner: 0,
            balance: 0,
        },
    };
    let rec = initialize_escrow(&mut ctx, amount, fee, String::from("listing-1"), now, 7)
        .expect("initialize should succeed");
    (ctx, rec)
}

fn confirm_ctx(ctx: &InitializeEscrow, rec: EscrowAccount, caller: u64) -> ConfirmDelivery {
    ConfirmDelivery {
        buyer: caller,
        escrow_account: rec,
        escrow_vault: ctx.escrow_vault,
        seller_token_account: TokenAccount {
            owner: SELLER,
            balance: 0,
        },
        treasury_token_account: TokenAccount {
            owner: TREASURY,
            balance: 0,
        },
    }
}

fn refund_ctx(ctx: &InitializeEscrow, rec: EscrowAccount) -> RefundTimeout {
    RefundTimeout {
        escrow_account: rec,
        escrow_vault: ctx.escrow_vault,
        buyer_token_account: ctx.buyer_token_account,
        treasury_token_account: TokenAccount {
            owner: TREASURY,
            balance: 0,
        },
    }
}

#[test]
fn overflow_guard_rejects_initialize() {
    let mut ctx = InitializeEscrow {
        buyer: BUYER,
        seller: SELLER,
        buyer_token_account: TokenAccount {
            owner: BUYER,
            balance: 500,
        },
        escrow_vault: TokenAccount {
            owner: 0,
            balance: 0,
        },
    };
    let r = initialize_escrow(&mut ctx, u64::MAX, 1, String::from("x"), 5, 7);
    assert!(matches!(r, Err(ErrorCode::NumericalOverflow)));
    assert_eq!(ctx.buyer_token_account.balance, 500);
    assert_eq!(ctx.escrow_vault.balance, 0);
}

#[test]
fn exact_value_range_fit_is_accepted() {
    let (ctx, rec) = funded_init(u64::MAX - 1, 1, u64::MAX, 5);
    assert_eq!(ctx.escrow_vault.balance, u64::MAX);
    assert_eq!(ctx.buyer_token_account.balance, 0);
    assert_eq!(rec.amount, u64::MAX - 1);
    assert_eq!(rec.fee, 1);
}

#[test]
fn initialize_sets_initial_record_state() {
    let (ctx, rec) = funded_init(60, 10, 100, 5);
    assert_eq!(rec.state, EscrowState::Initialized);
    assert_eq!(rec.created_at, 5);
    assert_eq!(rec.buyer, BUYER);
    assert_eq!(rec.seller, SELLER);
    assert_eq!(rec.listing_id, "listing-1");
    assert_eq!(ctx.escrow_vault.balance, 70);
    assert_eq!(ctx.buyer_token_account.balance, 30);
    assert_eq!(
        ctx.escrow_vault.owner,
        derive_authority(BUYER, SELLER, "listing-1", 7)
    );
}

#[test]
fn initialize_rejects_foreign_funding_source() {
    let mut ctx = InitializeEscrow {
        buyer: BUYER,
        seller: SELLER,
        buyer_token_account: TokenAccount {
            owner: SELLER,
            balance: 100,
        },
        escrow_vault: TokenAccount {
            owner: 0,
            balance: 0,
        },
    };
    let r = initialize_escrow(&mut ctx, 60, 10, String::from("x"), 5, 7);
    assert!(matches!(r, Err(ErrorCode::Unauthorized)));
    assert_eq!(ctx.buyer_token_account.balance, 100);
}

#[test]
fn initialize_rejects_underfunded_buyer() {
    let mut ctx = InitializeEscrow {
        buyer: BUYER,
        seller: SELLER,
        buyer_token_account: TokenAccount {
            owner: BUYER,
            balance: 69,
        },
        escrow_vault: TokenAccount {
            owner: 0,
            balance: 0,
        },
    };
    let r = initialize_escrow(&mut ctx, 60, 10, String::from("x"), 5, 7);
    assert!(matches!(r, Err(ErrorCode::InsufficientFunds)));
    assert_eq!(ctx.buyer_token_account.balance, 69);
    assert_eq!(ctx.escrow_vault.balance, 0);
}

#[test]
fn happy_path_moves_amount_and_fee() {
    let (ctx, rec) = funded_init(60, 10, 100, 5);
    let mut c = confirm_ctx(&ctx, rec, BUYER);
    let r = confirm_delivery(&mut c);
    assert_eq!(r, Ok(()));
    assert_eq!(c.escrow_account.state, EscrowState::Completed);
    assert_eq!(c.seller_token_account.balance, 60);
    assert_eq!(c.treasury_token_account.balance, 10);
    assert_eq!(c.escrow_vault.balance, 0);
}

#[test]
fn timeout_path_refunds_buyer_and_pays_treasury() {
    let (ctx, rec) = funded_init(60, 10, 100, 5);
    let mut rf = refund_ctx(&ctx, rec);
    let r = refund_timeout(&mut rf, 5 + TIMEOUT_SECONDS + 1);
    assert_eq!(r, Ok(()));
    assert_eq!(rf.escrow_account.state, EscrowState::Cancelled);
    assert_eq!(rf.buyer_token_account.balance, 90);
    assert_eq!(rf.treasury_token_account.balance, 10);
    assert_eq!(rf.escrow_vault.balance, 0);
}

#[test]
fn refund_at_exact_deadline_is_rejected() {
    let (ctx, rec) = funded_init(60, 10, 100, 5);
    let mut rf = refund_ctx(&ctx, rec);
    let r = refund_timeout(&mut rf, 5 + TIMEOUT_SECONDS);
    assert_eq!(r, Err(ErrorCode::TimeoutNotReached));
    assert_eq!(rf.escrow_account.state, EscrowState::Initialized);
    assert_eq!(rf.escrow_vault.balance, 70);
    assert_eq!(rf.buyer_token_account.balance, 30);
}

#[test]
fn refund_one_second_past_deadline_succeeds() {
    let (ctx, rec) = funded_init(60, 10, 100, 5);
    let mut rf = refund_ctx(&ctx, rec);
    assert_eq!(
        refund_timeout(&mut rf, 5 + TIMEOUT_SECONDS),
        Err(ErrorCode::TimeoutNotReached)
    );
    assert_eq!(refund_timeout(&mut rf, 5 + TIMEOUT_SECONDS + 1), Ok(()));
    assert_eq!(rf.escrow_account.state, EscrowState::Cancelled);
}

#[test]
fn second_confirm_is_rejected_without_transfer() {
    let (ctx, rec) = funded_init(60, 10, 100, 5);
    let mut c = confirm_ctx(&ctx, rec, BUYER);
    assert_eq!(confirm_delivery(&mut c), Ok(()));
    let seller_after = c.seller_token_account.balance;
    let treasury_after = c.treasury_token_account.balance;
    let r = confirm_delivery(&mut c);
    assert_eq!(r, Err(ErrorCode::InvalidState));
    assert_eq!(c.escrow_account.state, EscrowState::Completed);
    assert_eq!(c.seller_token_account.balance, seller_after);
    assert_eq!(c.treasury_token_account.balance, treasury_after);
    assert_eq!(c.escrow_vault.balance, 0);
}

#[test]
fn confirm_by_non_buyer_is_rejected() {
    let (ctx, rec) = funded_init(60, 10, 100, 5);
    let mut c = confirm_ctx(&ctx, rec, SELLER);
    let r = confirm_delivery(&mut c);
    assert_eq!(r, Err(ErrorCode::Unauthorized));
    assert_eq!(c.escrow_account.state, EscrowState::Initialized);
    assert_eq!(c.escrow_vault.balance, 70);
    assert_eq!(c.seller_token_account.balance, 0);
}

#[test]
fn refund_after_confirm_is_rejected() {
    let (ctx, rec) = funded_init(60, 10, 100, 5);
    let mut c = confirm_ctx(&ctx, rec, BUYER);
    assert_eq!(confirm_delivery(&mut c), Ok(()));
    let mut rf = RefundTimeout {
        escrow_account: c.escrow_account,
        escrow_vault: c.escrow_vault,
        buyer_token_account: ctx.buyer_token_account,
        treasury_token_account: TokenAccount {
            owner: TREASURY,
            balance: 0,
        },
    };
    let r = refund_timeout(&mut rf, 5 + TIMEOUT_SECONDS + 1);
    assert_eq!(r, Err(ErrorCode::InvalidState));
    assert_eq!(rf.buyer_token_account.balance, 30);
}

#[test]
fn confirm_with_wrong_vault_authority_is_rejected() {
    let (ctx, rec) = funded_init(60, 10, 100, 5);
    let mut c = confirm_ctx(&ctx, rec, BUYER);
    c.escrow_vault.owner = c.escrow_vault.owner.wrapping_add(1);
    let r = confirm_delivery(&mut c);
    assert_eq!(r, Err(ErrorCode::Unauthorized));
    assert_eq!(c.escrow_account.state, EscrowState::Initialized);
    assert_eq!(c.escrow_vault.balance, 70);
}

#[test]
fn confirm_into_foreign_seller_account_is_rejected() {
    let (ctx, rec) = funded_init(60, 10, 100, 5);
    let mut c = confirm_ctx(&ctx, rec, BUYER);
    c.seller_token_account.owner = TREASURY;
    let r = confirm_delivery(&mut c);
    assert_eq!(r, Err(ErrorCode::Unauthorized));
    assert_eq!(c.escrow_account.state, EscrowState::Initialized);
    assert_eq!(c.escrow_vault.balance, 70);
    assert_eq!(c.seller_token_account.balance, 0);
}

#[test]
fn refund_into_foreign_buyer_account_is_rejected() {
    let (ctx, rec) = funded_init(60, 10, 100, 5);
    let mut rf = refund_ctx(&ctx, rec);
    rf.buyer_token_account.owner = SELLER;
    let r = refund_timeout(&mut rf, 5 + TIMEOUT_SECONDS + 1);
    assert_eq!(r, Err(ErrorCode::Unauthorized));
    assert_eq!(rf.escrow_account.state, EscrowState::Initialized);
    assert_eq!(rf.escrow_vault.balance, 70);
    assert_eq!(rf.buyer_token_account.balance, 30);
}

#[test]
fn confirm_with_drained_vault_is_rejected() {
    let (ctx, rec) = funded_init(60, 10, 100, 5);
    let mut c = confirm_ctx(&ctx, rec, BUYER);
    c.escrow_vault.balance = 59;
    let r = confirm_delivery(&mut c);
    assert_eq!(r, Err(ErrorCode::InsufficientFunds));
    assert_eq!(c.escrow_account.state, EscrowState::Initialized);
    assert_eq!(c.seller_token_account.balance, 0);
}

#[test]
fn partial_settlement_failure_changes_nothing() {
    // The seller-side transfer alone could succeed, but the treasury-side
    // credit cannot: the whole settlement must abort with every balance and
    // the record state exactly as before.
    let (ctx, rec) = funded_init(60, 10, 100, 5);
    let mut c = confirm_ctx(&ctx, rec, BUYER);
    c.treasury_token_account.balance = u64::MAX;
    let r = confirm_delivery(&mut c);
    assert_eq!(r, Err(ErrorCode::NumericalOverflow));
    assert_eq!(c.escrow_account.state, EscrowState::Initialized);
    assert_eq!(c.escrow_vault.balance, 70);
    assert_eq!(c.seller_token_account.balance, 0);
    assert_eq!(c.treasury_token_account.balance, u64::MAX);
}

#[test]
fn disputed_record_admits_no_settlement() {
    let (ctx, mut rec) = funded_init(60, 10, 100, 5);
    rec.state = EscrowState::Disputed;
    let mut c = confirm_ctx(&ctx, rec, BUYER);
    assert_eq!(confirm_delivery(&mut c), Err(ErrorCode::InvalidState));
    let mut rf = refund_ctx(&ctx, c.escrow_account);
    assert_eq!(
        refund_timeout(&mut rf, 5 + TIMEOUT_SECONDS + 1),
        Err(ErrorCode::InvalidState)
    );
}

#[test]
fn empty_listing_id_is_accepted() {
    let mut ctx = InitializeEscrow {
        buyer: BUYER,
        seller: SELLER,
        buyer_token_account: TokenAccount {
            owner: BUYER,
            balance: 100,
        },
        escrow_vault: TokenAccount {
            owner: 0,
            balance: 0,
        },
    };
    let rec = initialize_escrow(&mut ctx, 60, 10, String::new(), 5, 7)
        .expect("empty listing id should be accepted");
    assert_eq!(rec.listing_id, "");
    assert_eq!(ctx.escrow_vault.owner, derive_authority(BUYER, SELLER, "", 7));
}

#[test]
fn authority_derivation_is_deterministic_and_salted() {
    let a = derive_authority(1, 2, "listing", 7);
    let b = derive_authority(1, 2, "listing", 7);
    assert_eq!(a, b);
    assert_ne!(a, derive_authority(1, 2, "listing", 8));
}

#[test]
fn custody_transfer_is_exact_and_atomic() {
    let mut from = TokenAccount {
        owner: 5,
        balance: 80,
    };
    let mut to = TokenAccount {
        owner: 6,
        balance: 1,
    };
    assert_eq!(transfer(&mut from, &mut to, 30, 5), Ok(()));
    assert_eq!(from.balance, 50);
    assert_eq!(to.balance, 31);
    assert_eq!(transfer(&mut from, &mut to, 51, 5), Err(ErrorCode::InsufficientFunds));
    assert_eq!(from.balance, 50);
    assert_eq!(to.balance, 31);
    assert_eq!(transfer(&mut from, &mut to, 30, 7), Err(ErrorCode::Unauthorized));
    assert_eq!(from.balance, 50);
    to.balance = u64::MAX;
    assert_eq!(transfer(&mut from, &mut to, 1, 5), Err(ErrorCode::NumericalOverflow));
    assert_eq!(from.balance, 50);
    assert_eq!(to.balance, u64::MAX);
}

#[test]
fn error_messages_name_each_reason() {
    assert_eq!(ErrorCode::NumericalOverflow.message(), "Numerical Overflow");
    assert_eq!(ErrorCode::InvalidState.message(), "Invalid Escrow State");
    assert_eq!(ErrorCode::Unauthorized.message(), "Unauthorized");
    assert_eq!(ErrorCode::TimeoutNotReached.message(), "Timeout Not Reached");
    assert_eq!(ErrorCode::InsufficientFunds.message(), "Insufficient Funds");
}
