//! Deterministic derivation of a custody authority from a record's immutable
//! identity: a pure function of `(buyer, seller, listing_id, bump)`. No
//! secret is stored; the handle is recomputed at each authorization check and
//! compared against the authority registered for the vault.

use vstd::prelude::*;
use vstd::string::StrSliceExecFns;

verus! {

/// Offset basis of the derivation (the 64-bit FNV offset).
pub const AUTH_SEED: u64 = 0xcbf29ce484222325;

/// Multiplier of the derivation (the 64-bit FNV prime).
pub const AUTH_PRIME: u64 = 0x100000001b3;

/// One mixing step: fold `x` into the accumulator.
#[verifier::opaque]
pub open spec fn auth_mix(acc: u64, x: u64) -> u64 {
    vstd::wrapping::u64_specs::wrapping_add(
        vstd::wrapping::u64_specs::wrapping_mul(acc, AUTH_PRIME),
        x,
    )
}

/// Folds a sequence of characters into the accumulator, front to back.
pub open spec fn auth_fold(acc: u64, s: Seq<char>) -> u64
    decreases s.len(),
{
    if s.len() == 0 {
        acc
    } else {
        auth_fold(auth_mix(acc, s[0] as u64), s.drop_first())
    }
}

/// The custody authority handle owed to a record with this identity.
pub open spec fn spec_derive_authority(
    buyer: u64,
    seller: u64,
    listing_id: Seq<char>,
    bump: u8,
) -> u64 {
    auth_mix(auth_fold(auth_mix(auth_mix(AUTH_SEED, buyer), seller), listing_id), bump as u64)
}

/// Derives the custody authority for `(buyer, seller, listing_id, bump)`.
/// Pure and deterministic: equal identities always derive equal handles.
pub fn derive_authority(buyer: u64, seller: u64, listing_id: &str, bump: u8) -> (r: u64)
    ensures
        r == spec_derive_authority(buyer, seller, listing_id@, bump),
{
    let mut acc: u64 = mix(mix(AUTH_SEED, buyer), seller);
    let n: usize = listing_id.unicode_len();
    let ghost all: Seq<char> = listing_id@;
    let mut i: usize = 0;
    proof {
        assert(all.skip(0) =~= all);
    }
    while i < n
        invariant
            i <= n,
            n == all.len(),
            listing_id@ == all,
            auth_fold(acc, all.skip(i as int)) == auth_fold(
                auth_mix(auth_mix(AUTH_SEED, buyer), seller),
                all,
            ),
        decreases n - i,
    {
        let c: char = listing_id.get_char(i);
        proof {
            assert(all.skip(i as int).len() > 0);
            assert(all.skip(i as int)[0] == all[i as int]);
            assert(all.skip(i as int).drop_first() =~= all.skip(i as int + 1));
        }
        acc = mix(acc, c as u64);
        i = i + 1;
    }
    proof {
        assert(all.skip(n as int) =~= Seq::<char>::empty());
    }
    mix(acc, bump as u64)
}

/// One executable mixing step, equal to `auth_mix`.
fn mix(acc: u64, x: u64) -> (r: u64)
    ensures
        r == auth_mix(acc, x),
{
    proof {
        reveal(auth_mix);
    }
    acc.wrapping_mul(AUTH_PRIME).wrapping_add(x)
}

} // verus!
