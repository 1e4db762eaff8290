//! Allocation, staging and vesting engine for a tiered token sale backed by a
//! staking facility.
//!
//! The `staking` module classifies locked balances into tiers and releases
//! tokens from time-locked transits; the `ido` module sizes investments by
//! stage and tier and converts collected amounts into distributed ones.
use vstd::prelude::*;

pub mod ido;
pub mod program_error;
pub mod staking;

verus! {

/// Number of staking tiers.
pub const TIERS_COUNT: usize = 4;

/// Number of sale stages with a duration of their own; the final stage lasts
/// until the sale closes.
pub const STAGES_ACTIVE_COUNT: usize = 2;

/// Seconds since the Unix epoch, as the ledger clock reports them.
pub type UnixTimestamp = i64;

/// Address of a ledger account.
#[derive(Clone, Copy, Debug, Default)]
pub struct Pubkey(pub [u8; 32]);

impl PartialEq for Pubkey {
    fn eq(&self, other: &Pubkey) -> (r: bool) {
        let mut i: usize = 0;
        while i < 32
            invariant
                i <= 32,
                forall|j: int| 0 <= j < i ==> self.0@[j] == other.0@[j],
            decreases 32 - i,
        {
            if self.0[i] != other.0[i] {
                return false;
            }
            i = i + 1;
        }
        proof {
            assert(self.0@ =~= other.0@);
        }
        true
    }
}

impl vstd::std_specs::cmp::PartialEqSpecImpl for Pubkey {
    open spec fn obeys_eq_spec() -> bool {
        true
    }

    open spec fn eq_spec(&self, other: &Pubkey) -> bool {
        self.0@ == other.0@
    }
}

impl Eq for Pubkey {
}

} // verus!
