//! The bounds oracle: the policy constant and the quantities that the
//! transition rules take as given instead of computing them.
//!
//! The rules are stated for every answer of the oracle. An oracle is a plain
//! value, so a caller can fix each answer; `BoundsOracle::nondet` draws one whose
//! answers are arbitrary.

use vstd::prelude::*;
use crate::state::{
    Authorized, Delegation, Lockup, Meta, Pubkey, Stake, StakeView,
};

verus! {

/// An arbitrary `u64`, from `cvlr_nondet::nondet`. Nothing is known of the
/// value, and two draws may differ.
#[verifier::external_body]
pub(crate) fn nondet_u64() -> (value: u64) {
    cvlr_nondet::nondet::<u64>()
}

/// An arbitrary `u8`, from `cvlr_nondet::nondet`. Nothing is known of the
/// value, and two draws may differ.
#[verifier::external_body]
pub(crate) fn nondet_u8() -> (value: u8) {
    cvlr_nondet::nondet::<u8>()
}

/// An arbitrary address.
pub fn nondet_pubkey() -> (key: Pubkey) {
    let mut bytes: [u8; 32] = [0u8; 32];
    let mut i: usize = 0;
    while i < 32
        invariant
            i <= 32,
        decreases 32 - i,
    {
        bytes[i] = nondet_u8();
        i += 1;
    }
    Pubkey { bytes }
}

/// An arbitrary meta.
pub fn nondet_meta() -> (meta: Meta) {
    let staker = nondet_pubkey();
    let withdrawer = nondet_pubkey();
    let custodian = nondet_pubkey();
    Meta {
        rent_exempt_reserve: nondet_u64(),
        authorized: Authorized { staker, withdrawer },
        lockup: Lockup {
            unix_timestamp: #[verifier::truncate]
            (nondet_u64() as i64),
            epoch: nondet_u64(),
            custodian,
        },
    }
}

/// An arbitrary stake.
pub fn nondet_stake() -> (stake: Stake) {
    let voter_pubkey = nondet_pubkey();
    Stake {
        delegation: Delegation {
            voter_pubkey,
            stake: nondet_u64(),
            activation_epoch: nondet_u64(),
            deactivation_epoch: nondet_u64(),
            warmup_cooldown_rate_bits: nondet_u64(),
        },
        credits_observed: nondet_u64(),
    }
}

/// The answers of the oracle that one operation may consult.
#[derive(Clone, Copy, Debug, PartialEq, Eq)]
pub struct BoundsOracle {
    /// The least amount that may be delegated.
    pub minimum_delegation: u64,
    /// A sample of the effective stake; it counts up to the delegated amount.
    pub effective_stake: u64,
    /// The vote credits to record with a new delegation.
    pub credits_observed: u64,
    /// Whether a split treats its destination as funded beforehand.
    pub destination_prefunded: bool,
    /// What a split into a funded destination holds back for that account's
    /// own reserve.
    pub reserve_adjustment: u64,
    /// The rent-exempt reserve of a record of the fixed size.
    pub rent_exempt_reserve: u64,
    /// The stake that a merge leaves in its destination.
    pub merged_stake: Stake,
}

/// A `BoundsOracle` with the key of its stake as a byte sequence.
pub struct OracleView {
    pub minimum_delegation: u64,
    pub effective_stake: u64,
    pub credits_observed: u64,
    pub destination_prefunded: bool,
    pub reserve_adjustment: u64,
    pub rent_exempt_reserve: u64,
    pub merged_stake: StakeView,
}

impl View for BoundsOracle {
    type V = OracleView;

    open spec fn view(&self) -> OracleView {
        OracleView {
            minimum_delegation: self.minimum_delegation,
            effective_stake: self.effective_stake,
            credits_observed: self.credits_observed,
            destination_prefunded: self.destination_prefunded,
            reserve_adjustment: self.reserve_adjustment,
            rent_exempt_reserve: self.rent_exempt_reserve,
            merged_stake: self.merged_stake@,
        }
    }
}

impl OracleView {
    /// The effective stake of a delegation of `stake`: the sample, capped at
    /// the delegated amount.
    pub open spec fn effective_stake_bound(self, stake: u64) -> u64 {
        if self.effective_stake <= stake {
            self.effective_stake
        } else {
            stake
        }
    }
}

impl BoundsOracle {
    /// An oracle with the policy minimum and otherwise arbitrary answers.
    pub fn nondet() -> (oracle: BoundsOracle)
        ensures
            oracle.minimum_delegation == crate::minimum_delegation(),
    {
        BoundsOracle {
            minimum_delegation: crate::get_minimum_delegation(),
            effective_stake: nondet_u64(),
            credits_observed: nondet_u64(),
            destination_prefunded: nondet_u64() != 0,
            reserve_adjustment: nondet_u64(),
            rent_exempt_reserve: nondet_u64(),
            merged_stake: nondet_stake(),
        }
    }

    /// The least amount that may be delegated.
    pub fn minimum_delegation(&self) -> (amount: u64)
        ensures
            amount == self.minimum_delegation,
    {
        self.minimum_delegation
    }

    /// The effective stake of `delegation`: some amount up to what it delegates.
    pub fn effective_stake_bound(&self, delegation: &Delegation) -> (amount: u64)
        ensures
            amount == self@.effective_stake_bound(delegation.stake),
            amount <= delegation.stake,
    {
        if self.effective_stake <= delegation.stake {
            self.effective_stake
        } else {
            delegation.stake
        }
    }

    /// The rent-exempt reserve of a record of `size` bytes. The oracle holds
    /// one answer, whatever the size.
    pub fn rent_exempt_reserve_for(&self, size: usize) -> (reserve: u64)
        ensures
            reserve == self.rent_exempt_reserve,
    {
        self.rent_exempt_reserve
    }
}

/// The effective stake of `stake` as `oracle` gives it: at most the delegated
/// amount.
pub fn get_effective_stake(stake: &Stake, oracle: &BoundsOracle) -> (amount: u64)
    ensures
        amount == oracle@.effective_stake_bound(stake.delegation.stake),
        amount <= stake.delegation.stake,
{
    oracle.effective_stake_bound(&stake.delegation)
}

} // verus!
