//! The escrow record: the durable state of one escrow instance, one per
//! `(buyer, seller, listing)` triple.

use vstd::prelude::*;

use crate::authority::derive_authority;
use crate::authority::spec_derive_authority;
use crate::errors::ErrorCode;

verus! {

/// The grace period after which an unconfirmed escrow may be refunded.
pub const TIMEOUT_SECONDS: i64 = 14 * 24 * 60 * 60;

/// Lifecycle state of an escrow record. The happy path runs
/// `Initialized -> Delivered -> Completed`, the timeout path
/// `Initialized -> Refunded -> Cancelled`; all transitions are one-way.
/// `Disputed` is declared but no transition into or out of it exists here;
/// its semantics are left to an external dispute-resolution collaborator.
#[derive(Clone, Copy, Debug, PartialEq, Eq, Structural)]
pub enum EscrowState {
    Initialized,
    Delivered,
    Completed,
    Refunded,
    Cancelled,
    Disputed,
}

impl EscrowState {
    /// Once a terminal state is reached, no further transition is permitted.
    pub open spec fn is_terminal(self) -> bool {
        self is Completed || self is Refunded || self is Cancelled
    }
}

/// The durable state of one escrow instance. `buyer`, `seller`,
/// `listing_id`, `created_at` and `bump` are immutable after creation; only
/// `state` ever changes, through the state-machine operations.
#[verifier::ext_equal]
pub struct EscrowAccount {
    /// Identity handle of the depositing party.
    pub buyer: u64,
    /// Identity handle of the party owed the principal.
    pub seller: u64,
    /// Identifier of the traded item; part of the record's identity.
    pub listing_id: String,
    /// Principal owed to the seller.
    pub amount: u64,
    /// Fee owed to the treasury.
    pub fee: u64,
    /// Current lifecycle state.
    pub state: EscrowState,
    /// Creation timestamp, set once.
    pub created_at: i64,
    /// Salt stored so the custody authority can be re-derived; not a secret.
    pub bump: u8,
}

impl EscrowAccount {
    /// Well-formedness: the deposit fits the value type, and the refund
    /// deadline fits the clock type. `create` establishes this and every
    /// operation preserves it.
    pub open spec fn wf(self) -> bool {
        &&& self.amount + self.fee <= u64::MAX
        &&& self.created_at + TIMEOUT_SECONDS <= i64::MAX
    }

    /// The custody authority this record's identity derives to. It is
    /// recomputed from the immutable fields at every authorization check,
    /// never stored as a secret.
    pub open spec fn spec_authority(self) -> u64 {
        spec_derive_authority(self.buyer, self.seller, self.listing_id@, self.bump)
    }

    /// Recomputes the custody authority from the record's immutable fields.
    pub fn authority(&self) -> (r: u64)
        ensures
            r == self.spec_authority(),
    {
        derive_authority(self.buyer, self.seller, self.listing_id.as_str(), self.bump)
    }

    /// The record `create` is obliged to return on success.
    pub open spec fn spec_new(
        buyer: u64,
        seller: u64,
        listing_id: String,
        amount: u64,
        fee: u64,
        now: i64,
        bump: u8,
    ) -> EscrowAccount {
        EscrowAccount {
            buyer,
            seller,
            listing_id,
            amount,
            fee,
            state: EscrowState::Initialized,
            created_at: now,
            bump,
        }
    }

    /// Creates a record in state `Initialized` with `created_at = now`, or
    /// rejects it with `NumericalOverflow` when `amount + fee` does not fit
    /// the value type. The sole constructor; all later mutation goes through
    /// the state-machine operations.
    pub fn create(
        buyer: u64,
        seller: u64,
        listing_id: String,
        amount: u64,
        fee: u64,
        now: i64,
        bump: u8,
    ) -> (r: Result<EscrowAccount, ErrorCode>)
        requires
            now + TIMEOUT_SECONDS <= i64::MAX,
        ensures
            r is Ok <==> amount + fee <= u64::MAX,
            r is Ok ==> r->Ok_0 == Self::spec_new(buyer, seller, listing_id, amount, fee, now, bump),
            r is Ok ==> r->Ok_0.wf(),
            r is Err ==> r->Err_0 == ErrorCode::NumericalOverflow,
    {
        if amount > u64::MAX - fee {
            return Err(ErrorCode::NumericalOverflow);
        }
        Ok(EscrowAccount {
            buyer,
            seller,
            listing_id,
            amount,
            fee,
            state: EscrowState::Initialized,
            created_at: now,
            bump,
        })
    }
}

} // verus!
