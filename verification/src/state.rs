//! The stake account record: its parts, their mathematical views, and the few
//! operations that act on a single part.

use vstd::prelude::*;
use crate::error::StakeError;

verus! {

/// Number of bytes in an account address.
pub const PUBKEY_BYTES: usize = 32;

/// Deactivation epoch of a delegation that is not scheduled to deactivate.
pub const NOT_DEACTIVATING: u64 = u64::MAX;

/// Bit pattern of the rate that a fresh delegation carries in its legacy
/// warmup/cooldown field (the IEEE 754 double 0.25).
pub const DEFAULT_WARMUP_COOLDOWN_RATE_BITS: u64 = 0x3FD0_0000_0000_0000;

/// An account address.
#[derive(Clone, Copy, Debug, PartialEq, Eq)]
pub struct Pubkey {
    pub bytes: [u8; 32],
}

impl View for Pubkey {
    type V = Seq<u8>;

    open spec fn view(&self) -> Seq<u8> {
        self.bytes@
    }
}

impl Pubkey {
    /// Whether two addresses hold the same bytes.
    pub fn same(&self, other: &Pubkey) -> (r: bool)
        ensures
            r == (self@ == other@),
    {
        let mut i: usize = 0;
        while i < 32
            invariant
                i <= 32,
                forall|j: int| 0 <= j < i ==> self.bytes[j] == other.bytes[j],
            decreases 32 - i,
        {
            if self.bytes[i] != other.bytes[i] {
                return false;
            }
            i += 1;
        }
        assert(self@ =~= other@);
        true
    }
}

/// The two keys that may act on a stake account.
#[derive(Clone, Copy, Debug, PartialEq, Eq)]
pub struct Authorized {
    pub staker: Pubkey,
    pub withdrawer: Pubkey,
}

/// An `Authorized` with its keys as byte sequences.
pub struct AuthorizedView {
    pub staker: Seq<u8>,
    pub withdrawer: Seq<u8>,
}

impl View for Authorized {
    type V = AuthorizedView;

    open spec fn view(&self) -> AuthorizedView {
        AuthorizedView { staker: self.staker@, withdrawer: self.withdrawer@ }
    }
}

impl Authorized {
    /// Whether both keys agree with those of `other`.
    pub fn same(&self, other: &Authorized) -> (r: bool)
        ensures
            r == (self@ == other@),
    {
        self.staker.same(&other.staker) && self.withdrawer.same(&other.withdrawer)
    }
}

/// Which of the two authorities an authorization replaces.
#[derive(Clone, Copy, Debug, PartialEq, Eq, Structural)]
pub enum StakeAuthorize {
    Staker,
    Withdrawer,
}

/// The window in which a withdrawal needs the custodian.
#[derive(Clone, Copy, Debug, PartialEq, Eq)]
pub struct Lockup {
    pub unix_timestamp: i64,
    pub epoch: u64,
    pub custodian: Pubkey,
}

/// A `Lockup` with its key as a byte sequence.
pub struct LockupView {
    pub unix_timestamp: i64,
    pub epoch: u64,
    pub custodian: Seq<u8>,
}

impl View for Lockup {
    type V = LockupView;

    open spec fn view(&self) -> LockupView {
        LockupView {
            unix_timestamp: self.unix_timestamp,
            epoch: self.epoch,
            custodian: self.custodian@,
        }
    }
}

/// What every funded stake account carries.
#[derive(Clone, Copy, Debug, PartialEq, Eq)]
pub struct Meta {
    pub rent_exempt_reserve: u64,
    pub authorized: Authorized,
    pub lockup: Lockup,
}

/// A `Meta` with its keys as byte sequences.
pub struct MetaView {
    pub rent_exempt_reserve: u64,
    pub authorized: AuthorizedView,
    pub lockup: LockupView,
}

impl View for Meta {
    type V = MetaView;

    open spec fn view(&self) -> MetaView {
        MetaView {
            rent_exempt_reserve: self.rent_exempt_reserve,
            authorized: self.authorized@,
            lockup: self.lockup@,
        }
    }
}

/// The binding of an account's funds to a validator.
#[derive(Clone, Copy, Debug, PartialEq, Eq)]
pub struct Delegation {
    pub voter_pubkey: Pubkey,
    pub stake: u64,
    pub activation_epoch: u64,
    /// `NOT_DEACTIVATING` while no deactivation is scheduled.
    pub deactivation_epoch: u64,
    /// The legacy rate field of the record, carried as its raw bit pattern.
    pub warmup_cooldown_rate_bits: u64,
}

/// A `Delegation` with its key as a byte sequence.
pub struct DelegationView {
    pub voter_pubkey: Seq<u8>,
    pub stake: u64,
    pub activation_epoch: u64,
    pub deactivation_epoch: u64,
    pub warmup_cooldown_rate_bits: u64,
}

impl View for Delegation {
    type V = DelegationView;

    open spec fn view(&self) -> DelegationView {
        DelegationView {
            voter_pubkey: self.voter_pubkey@,
            stake: self.stake,
            activation_epoch: self.activation_epoch,
            deactivation_epoch: self.deactivation_epoch,
            warmup_cooldown_rate_bits: self.warmup_cooldown_rate_bits,
        }
    }
}

/// A delegation that starts at `activation_epoch` and is not deactivating.
pub open spec fn new_delegation(voter: Seq<u8>, stake: u64, activation_epoch: u64)
    -> DelegationView {
    DelegationView {
        voter_pubkey: voter,
        stake,
        activation_epoch,
        deactivation_epoch: NOT_DEACTIVATING,
        warmup_cooldown_rate_bits: DEFAULT_WARMUP_COOLDOWN_RATE_BITS,
    }
}

impl Delegation {
    /// A delegation of `stake` to `voter_pubkey` that starts at
    /// `activation_epoch` and is not deactivating.
    pub fn new(voter_pubkey: &Pubkey, stake: u64, activation_epoch: u64) -> (d: Delegation)
        ensures
            d@ == new_delegation(voter_pubkey@, stake, activation_epoch),
    {
        Delegation {
            voter_pubkey: *voter_pubkey,
            stake,
            activation_epoch,
            deactivation_epoch: NOT_DEACTIVATING,
            warmup_cooldown_rate_bits: DEFAULT_WARMUP_COOLDOWN_RATE_BITS,
        }
    }
}

/// A delegation together with the vote credits seen when it was made.
#[derive(Clone, Copy, Debug, PartialEq, Eq)]
pub struct Stake {
    pub delegation: Delegation,
    pub credits_observed: u64,
}

/// A `Stake` with its key as a byte sequence.
pub struct StakeView {
    pub delegation: DelegationView,
    pub credits_observed: u64,
}

impl View for Stake {
    type V = StakeView;

    open spec fn view(&self) -> StakeView {
        StakeView { delegation: self.delegation@, credits_observed: self.credits_observed }
    }
}

impl StakeView {
    /// The same stake with another delegated amount.
    pub open spec fn with_stake(self, stake: u64) -> StakeView {
        StakeView {
            delegation: DelegationView { stake, ..self.delegation },
            ..self
        }
    }

    /// The same stake with another deactivation epoch.
    pub open spec fn with_deactivation(self, epoch: u64) -> StakeView {
        StakeView {
            delegation: DelegationView { deactivation_epoch: epoch, ..self.delegation },
            ..self
        }
    }
}

impl Stake {
    /// Takes `remaining_stake_delta` out of this stake and returns a stake of
    /// `split_stake_amount` that is otherwise a copy of it. Refused, with nothing
    /// changed, when the delta exceeds the delegated amount.
    pub fn split(&mut self, remaining_stake_delta: u64, split_stake_amount: u64) -> (r: Result<
        Stake,
        StakeError,
    >)
        ensures
            remaining_stake_delta > old(self).delegation.stake ==> r == Err::<Stake, StakeError>(
                StakeError::ArithmeticFault,
            ) && *final(self) == *old(self),
            remaining_stake_delta <= old(self).delegation.stake ==> r is Ok && final(self)@ == old(
                self,
            )@.with_stake((old(self).delegation.stake - remaining_stake_delta) as u64)
                && r->Ok_0@ == old(self)@.with_stake(split_stake_amount),
    {
        if remaining_stake_delta > self.delegation.stake {
            return Err(StakeError::ArithmeticFault);
        }
        self.delegation.stake = self.delegation.stake - remaining_stake_delta;
        let mut new: Stake = *self;
        new.delegation.stake = split_stake_amount;
        Ok(new)
    }

    /// Schedules the delegation to deactivate at `epoch`. A delegation that is
    /// already deactivating keeps its epoch.
    pub fn deactivate(&mut self, epoch: u64)
        ensures
            final(self)@ == deactivated(old(self)@, epoch),
    {
        if self.delegation.deactivation_epoch == NOT_DEACTIVATING {
            self.delegation.deactivation_epoch = epoch;
        }
    }
}

/// `stake` after a request to deactivate at `epoch`.
pub open spec fn deactivated(stake: StakeView, epoch: u64) -> StakeView {
    if stake.delegation.deactivation_epoch == NOT_DEACTIVATING {
        stake.with_deactivation(epoch)
    } else {
        stake
    }
}

/// The flag byte of a delegated record. No transition rule reads it.
#[derive(Clone, Copy, Debug, PartialEq, Eq, Structural)]
pub struct StakeFlags {
    pub bits: u8,
}

impl StakeFlags {
    /// The flag set with no flag raised.
    pub open spec fn spec_empty() -> StakeFlags {
        StakeFlags { bits: 0 }
    }

    #[verifier::when_used_as_spec(spec_empty)]
    pub fn empty() -> (f: StakeFlags)
        ensures
            f == Self::spec_empty(),
    {
        StakeFlags { bits: 0 }
    }
}

/// The flag set with no flag raised.
pub fn empty_stake_flags() -> (f: StakeFlags)
    ensures
        f == StakeFlags::spec_empty(),
{
    StakeFlags::empty()
}

/// The state of a stake account.
#[derive(Clone, Copy, Debug, PartialEq, Eq)]
pub enum StakeAccountState {
    /// Empty: the state a record starts in and returns to.
    Uninitialized,
    /// Funded, not delegated.
    Initialized(Meta),
    /// Funded and delegated to a validator.
    Delegated(Meta, Stake, StakeFlags),
}

/// A `StakeAccountState` with its keys as byte sequences: what the
/// transition rules are stated over.
pub enum StateView {
    Uninitialized,
    Initialized(MetaView),
    Delegated(MetaView, StakeView, StakeFlags),
}

impl View for StakeAccountState {
    type V = StateView;

    open spec fn view(&self) -> StateView {
        match *self {
            StakeAccountState::Uninitialized => StateView::Uninitialized,
            StakeAccountState::Initialized(meta) => StateView::Initialized(meta@),
            StakeAccountState::Delegated(meta, stake, flags) => StateView::Delegated(
                meta@,
                stake@,
                flags,
            ),
        }
    }
}

} // verus!
