//! The transition rules: what each operation makes of a state.
//!
//! Every rule is a function from the current state, the operation's arguments
//! and the oracle's answers to the next state or a failure. The rules are
//! written twice: as spec functions over the views, which say what a rule is,
//! and as executable functions that are proved to compute them.

use vstd::prelude::*;
use crate::error::StakeError;
use crate::oracle::{get_effective_stake, BoundsOracle, OracleView};
use crate::state::{
    new_delegation, deactivated, Delegation, DelegationView, Meta, MetaView, Pubkey, Stake,
    StakeAccountState, StakeAuthorize, StakeFlags, StakeView, StateView, NOT_DEACTIVATING,
};

verus! {

/// `a - b`, or zero where `b` exceeds `a`.
pub open spec fn saturating_sub(a: u64, b: u64) -> u64 {
    if a >= b {
        (a - b) as u64
    } else {
        0
    }
}

/// The stake of a delegated account that a withdrawal counts as still bound.
/// Before the deactivation epoch that is all of it, from then on what the
/// oracle gives as effective.
pub open spec fn withdraw_staked(stake: StakeView, epoch: u64, oracle: OracleView) -> u64 {
    if epoch < stake.delegation.deactivation_epoch {
        stake.delegation.stake
    } else {
        oracle.effective_stake_bound(stake.delegation.stake)
    }
}

/// What a withdrawal must leave in the account.
pub open spec fn withdraw_reserve(state: StateView, epoch: u64, oracle: OracleView) -> int {
    match state {
        StateView::Delegated(meta, stake, _) => withdraw_staked(stake, epoch, oracle)
            + meta.rent_exempt_reserve,
        StateView::Initialized(meta) => meta.rent_exempt_reserve as int,
        StateView::Uninitialized => 0,
    }
}

/// Whether the account counts as staked, so that it must not be emptied.
pub open spec fn withdraw_is_staked(state: StateView, epoch: u64, oracle: OracleView) -> bool {
    match state {
        StateView::Delegated(_, stake, _) => epoch < stake.delegation.deactivation_epoch
            || oracle.effective_stake_bound(stake.delegation.stake) != 0,
        _ => false,
    }
}

/// Withdrawing `lamports` from an account in `state` that holds `balance`: the
/// next state and the amount to relocate.
pub open spec fn withdraw_spec(
    state: StateView,
    epoch: u64,
    lamports: u64,
    balance: u64,
    oracle: OracleView,
) -> Result<(StateView, u64), StakeError> {
    let reserve = withdraw_reserve(state, epoch, oracle);
    if reserve > u64::MAX {
        Err(StakeError::ArithmeticFault)
    } else if lamports == balance {
        if withdraw_is_staked(state, epoch, oracle) {
            Err(StakeError::ReserveViolation)
        } else {
            Ok((StateView::Uninitialized, lamports))
        }
    } else if lamports > balance {
        Err(StakeError::InsufficientBalance)
    } else if lamports + reserve > u64::MAX {
        Err(StakeError::ArithmeticFault)
    } else if lamports + reserve > balance {
        Err(StakeError::ReserveViolation)
    } else {
        Ok((state, lamports))
    }
}

/// Scheduling the delegation of `state` to deactivate at `epoch`.
pub open spec fn deactivate_spec(state: StateView, epoch: u64) -> Result<StateView, StakeError> {
    match state {
        StateView::Delegated(meta, stake, flags) => Ok(
            StateView::Delegated(meta, deactivated(stake, epoch), flags),
        ),
        _ => Err(StakeError::InvalidStateForOperation),
    }
}

/// `meta` with one of its two authorities replaced.
pub open spec fn authorized_meta(meta: MetaView, new_authority: Seq<u8>, role: StakeAuthorize)
    -> MetaView {
    match role {
        StakeAuthorize::Staker => MetaView {
            authorized: crate::state::AuthorizedView { staker: new_authority, ..meta.authorized },
            ..meta
        },
        StakeAuthorize::Withdrawer => MetaView {
            authorized: crate::state::AuthorizedView {
                withdrawer: new_authority,
                ..meta.authorized
            },
            ..meta
        },
    }
}

/// Replacing one authority of an account in `state`.
pub open spec fn authorize_spec(state: StateView, new_authority: Seq<u8>, role: StakeAuthorize)
    -> Result<StateView, StakeError> {
    match state {
        StateView::Initialized(meta) => Ok(
            StateView::Initialized(authorized_meta(meta, new_authority, role)),
        ),
        StateView::Delegated(meta, stake, flags) => Ok(
            StateView::Delegated(authorized_meta(meta, new_authority, role), stake, flags),
        ),
        StateView::Uninitialized => Err(StakeError::InvalidStateForOperation),
    }
}

/// The amount that an account with `balance` can delegate: what lies above the
/// rent-exempt reserve, which must reach the minimum delegation.
pub open spec fn delegated_amount(balance: u64, meta: MetaView, minimum_delegation: u64) -> Result<
    u64,
    StakeError,
> {
    let amount = saturating_sub(balance, meta.rent_exempt_reserve);
    if amount < minimum_delegation {
        Err(StakeError::BelowMinimumDelegation)
    } else {
        Ok(amount)
    }
}

/// The stake of a first delegation.
pub open spec fn new_stake_spec(
    stake: u64,
    voter: Seq<u8>,
    activation_epoch: u64,
    credits_observed: u64,
) -> StakeView {
    StakeView { delegation: new_delegation(voter, stake, activation_epoch), credits_observed }
}

/// Delegating an existing stake again. While it is effective, only the
/// deactivation scheduled for this very epoch can be taken back, and only for
/// the same validator. Once nothing of it is effective it is delegated afresh.
pub open spec fn redelegated(
    stake: StakeView,
    stake_lamports: u64,
    voter: Seq<u8>,
    epoch: u64,
    oracle: OracleView,
) -> Result<StakeView, StakeError> {
    if oracle.effective_stake_bound(stake.delegation.stake) != 0 {
        if stake.delegation.voter_pubkey == voter && epoch == stake.delegation.deactivation_epoch {
            Ok(stake.with_deactivation(NOT_DEACTIVATING))
        } else {
            Err(StakeError::InvalidStateForOperation)
        }
    } else {
        Ok(
            StakeView {
                delegation: DelegationView {
                    voter_pubkey: voter,
                    stake: stake_lamports,
                    activation_epoch: epoch,
                    deactivation_epoch: NOT_DEACTIVATING,
                    ..stake.delegation
                },
                credits_observed: oracle.credits_observed,
            },
        )
    }
}

/// Delegating an account in `state` that holds `balance` to `validator`.
pub open spec fn delegate_spec(
    state: StateView,
    balance: u64,
    validator: Seq<u8>,
    epoch: u64,
    oracle: OracleView,
) -> Result<StateView, StakeError> {
    match state {
        StateView::Initialized(meta) => match delegated_amount(
            balance,
            meta,
            oracle.minimum_delegation,
        ) {
            Ok(amount) => Ok(
                StateView::Delegated(
                    meta,
                    new_stake_spec(amount, validator, epoch, oracle.credits_observed),
                    StakeFlags::spec_empty(),
                ),
            ),
            Err(e) => Err(e),
        },
        StateView::Delegated(meta, stake, flags) => match delegated_amount(
            balance,
            meta,
            oracle.minimum_delegation,
        ) {
            Ok(amount) => match redelegated(stake, amount, validator, epoch, oracle) {
                Ok(next) => Ok(StateView::Delegated(meta, next, flags)),
                Err(e) => Err(e),
            },
            Err(e) => Err(e),
        },
        StateView::Uninitialized => Err(StakeError::InvalidStateForOperation),
    }
}

/// What a split of `split_lamports` takes out of the source's stake, and what
/// it gives the destination as stake.
///
/// Into a destination that counts as empty, both are the lamports above the
/// source's rent-exempt reserve. Into one that counts as funded, the source
/// gives all the lamports, must keep the minimum delegation, and the
/// destination gets them less the oracle's adjustment.
pub open spec fn split_amounts(
    source_reserve: u64,
    source_stake: u64,
    split_lamports: u64,
    oracle: OracleView,
) -> Result<(u64, u64), StakeError> {
    if !oracle.destination_prefunded {
        let amount = saturating_sub(split_lamports, source_reserve);
        Ok((amount, amount))
    } else if saturating_sub(source_stake, split_lamports) < oracle.minimum_delegation {
        Err(StakeError::BelowMinimumDelegation)
    } else {
        Ok((split_lamports, saturating_sub(split_lamports, oracle.reserve_adjustment)))
    }
}

/// The meta of a split's destination: the source's, with the reserve that the
/// oracle gives for the new account.
pub open spec fn split_meta(source: MetaView, oracle: OracleView) -> MetaView {
    MetaView { rent_exempt_reserve: oracle.rent_exempt_reserve, ..source }
}

/// The source's state after a split, unless the split empties the account.
pub open spec fn split_source(
    source: StateView,
    remaining_stake_delta: u64,
) -> StateView {
    match source {
        StateView::Delegated(meta, stake, flags) => StateView::Delegated(
            meta,
            stake.with_stake(saturating_sub(stake.delegation.stake, remaining_stake_delta)),
            flags,
        ),
        _ => source,
    }
}

/// Splitting `split_lamports` off an account in state `source` that holds
/// `source_balance`, into an account in state `destination`: the next state of
/// the source, that of the destination, and the amount to relocate.
pub open spec fn split_spec(
    source: StateView,
    destination: StateView,
    split_lamports: u64,
    source_balance: u64,
    oracle: OracleView,
) -> Result<(StateView, StateView, u64), StakeError> {
    if destination != StateView::Uninitialized {
        Err(StakeError::InvalidTarget)
    } else if split_lamports > source_balance {
        Err(StakeError::InsufficientBalance)
    } else {
        let emptied = split_lamports == source_balance;
        match source {
            StateView::Delegated(meta, stake, flags) => match split_amounts(
                meta.rent_exempt_reserve,
                stake.delegation.stake,
                split_lamports,
                oracle,
            ) {
                Err(e) => Err(e),
                Ok((remaining_stake_delta, split_stake_amount)) => {
                    if split_stake_amount < oracle.minimum_delegation {
                        Err(StakeError::BelowMinimumDelegation)
                    } else if remaining_stake_delta > stake.delegation.stake {
                        Err(StakeError::ArithmeticFault)
                    } else {
                        Ok(
                            (
                                if emptied {
                                    StateView::Uninitialized
                                } else {
                                    split_source(source, remaining_stake_delta)
                                },
                                StateView::Delegated(
                                    split_meta(meta, oracle),
                                    stake.with_stake(split_stake_amount),
                                    flags,
                                ),
                                split_lamports,
                            ),
                        )
                    }
                },
            },
            StateView::Initialized(meta) => Ok(
                (
                    if emptied {
                        StateView::Uninitialized
                    } else {
                        source
                    },
                    StateView::Initialized(split_meta(meta, oracle)),
                    split_lamports,
                ),
            ),
            StateView::Uninitialized => Ok(
                (StateView::Uninitialized, StateView::Uninitialized, split_lamports),
            ),
        }
    }
}

/// The meta of a state that can take part in a merge.
pub open spec fn mergeable_meta(state: StateView) -> Option<MetaView> {
    match state {
        StateView::Initialized(meta) => Some(meta),
        StateView::Delegated(meta, _, _) => Some(meta),
        StateView::Uninitialized => None,
    }
}

/// Merging an account in state `source` that holds `source_balance` into one
/// in state `destination`: the next state of the destination, that of the
/// source, and the amount to relocate.
pub open spec fn merge_spec(
    destination: StateView,
    source: StateView,
    source_balance: u64,
    oracle: OracleView,
) -> Result<(StateView, StateView, u64), StakeError> {
    match (mergeable_meta(source), mergeable_meta(destination)) {
        (Some(source_meta), Some(destination_meta)) => {
            if destination_meta.authorized != source_meta.authorized {
                Err(StakeError::IncompatibleAuthorities)
            } else {
                Ok(
                    (
                        StateView::Delegated(
                            destination_meta,
                            oracle.merged_stake,
                            StakeFlags::spec_empty(),
                        ),
                        StateView::Uninitialized,
                        source_balance,
                    ),
                )
            }
        },
        _ => Err(StakeError::InvalidStateForOperation),
    }
}

/// Withdraws `lamports` from an account in `state` that holds `balance`.
///
/// Taking the whole balance resets the account, and is refused while it counts
/// as staked. Taking less must leave the reserve: the bound stake and the
/// rent-exempt reserve. More than the balance cannot be taken.
pub fn withdraw(
    state: &StakeAccountState,
    epoch: u64,
    lamports: u64,
    balance: u64,
    oracle: &BoundsOracle,
) -> (r: Result<(StakeAccountState, u64), StakeError>)
    ensures
        match r {
            Ok((next, amount)) => withdraw_spec(state@, epoch, lamports, balance, oracle@) == Ok::<
                (StateView, u64),
                StakeError,
            >((next@, amount)),
            Err(e) => withdraw_spec(state@, epoch, lamports, balance, oracle@) == Err::<
                (StateView, u64),
                StakeError,
            >(e),
        },
{
    let (reserve, is_staked): (u64, bool) = match state {
        StakeAccountState::Delegated(meta, stake, _) => {
            let (staked, is_staked): (u64, bool) = if epoch >= stake.delegation.deactivation_epoch {
                let effective: u64 = get_effective_stake(stake, oracle);
                (effective, effective != 0)
            } else {
                (stake.delegation.stake, true)
            };
            match staked.checked_add(meta.rent_exempt_reserve) {
                Some(reserve) => (reserve, is_staked),
                None => {
                    return Err(StakeError::ArithmeticFault);
                },
            }
        },
        StakeAccountState::Initialized(meta) => (meta.rent_exempt_reserve, false),
        StakeAccountState::Uninitialized => (0, false),
    };
    if lamports == balance {
        if is_staked {
            return Err(StakeError::ReserveViolation);
        }
        Ok((StakeAccountState::Uninitialized, lamports))
    } else if lamports > balance {
        Err(StakeError::InsufficientBalance)
    } else {
        match lamports.checked_add(reserve) {
            None => Err(StakeError::ArithmeticFault),
            Some(lamports_and_reserve) => {
                if lamports_and_reserve > balance {
                    Err(StakeError::ReserveViolation)
                } else {
                    Ok((*state, lamports))
                }
            },
        }
    }
}

/// Schedules the delegation of `state` to deactivate at `epoch`. Only a
/// delegated account can be deactivated; one that is deactivating already
/// stays as it is.
pub fn deactivate(state: &StakeAccountState, epoch: u64) -> (r: Result<
    StakeAccountState,
    StakeError,
>)
    ensures
        match r {
            Ok(next) => deactivate_spec(state@, epoch) == Ok::<StateView, StakeError>(next@),
            Err(e) => deactivate_spec(state@, epoch) == Err::<StateView, StakeError>(e),
        },
{
    match state {
        StakeAccountState::Delegated(meta, stake, flags) => {
            let mut stake: Stake = *stake;
            stake.deactivate(epoch);
            Ok(StakeAccountState::Delegated(*meta, stake, *flags))
        },
        _ => Err(StakeError::InvalidStateForOperation),
    }
}

/// Replaces the staker or the withdrawer of `meta` by `new_authority`.
pub fn meta_authorized_authorize(
    meta: &mut Meta,
    new_authority: &Pubkey,
    authority_type: StakeAuthorize,
)
    ensures
        final(meta)@ == authorized_meta(old(meta)@, new_authority@, authority_type),
{
    match authority_type {
        StakeAuthorize::Staker => {
            meta.authorized.staker = *new_authority;
        },
        StakeAuthorize::Withdrawer => {
            meta.authorized.withdrawer = *new_authority;
        },
    }
}

/// Replaces one authority of an account in `state`. An uninitialized account
/// has none.
pub fn authorize(state: &StakeAccountState, new_authority: &Pubkey, role: StakeAuthorize) -> (r:
    Result<StakeAccountState, StakeError>)
    ensures
        match r {
            Ok(next) => authorize_spec(state@, new_authority@, role) == Ok::<StateView, StakeError>(
                next@,
            ),
            Err(e) => authorize_spec(state@, new_authority@, role) == Err::<StateView, StakeError>(
                e,
            ),
        },
{
    match state {
        StakeAccountState::Initialized(meta) => {
            let mut meta: Meta = *meta;
            meta_authorized_authorize(&mut meta, new_authority, role);
            Ok(StakeAccountState::Initialized(meta))
        },
        StakeAccountState::Delegated(meta, stake, flags) => {
            let mut meta: Meta = *meta;
            meta_authorized_authorize(&mut meta, new_authority, role);
            Ok(StakeAccountState::Delegated(meta, *stake, *flags))
        },
        StakeAccountState::Uninitialized => Err(StakeError::InvalidStateForOperation),
    }
}

/// The amount that an account with `balance` can delegate: the rent-exempt
/// reserve cannot be staked, and the rest must reach the minimum delegation.
pub fn validate_delegated_amount(balance: u64, meta: &Meta, minimum_delegation: u64) -> (r: Result<
    u64,
    StakeError,
>)
    ensures
        r == delegated_amount(balance, meta@, minimum_delegation),
{
    let stake_amount: u64 = if balance >= meta.rent_exempt_reserve {
        balance - meta.rent_exempt_reserve
    } else {
        0
    };
    if stake_amount < minimum_delegation {
        Err(StakeError::BelowMinimumDelegation)
    } else {
        Ok(stake_amount)
    }
}

/// The stake of a first delegation of `stake` to `voter_pubkey`.
pub fn new_stake(stake: u64, voter_pubkey: &Pubkey, activation_epoch: u64, credits_observed: u64)
    -> (r: Stake)
    ensures
        r@ == new_stake_spec(stake, voter_pubkey@, activation_epoch, credits_observed),
{
    Stake { delegation: Delegation::new(voter_pubkey, stake, activation_epoch), credits_observed }
}

/// Delegates an existing stake again; see `redelegated`. A refusal leaves the
/// stake as it was.
pub fn redelegate_stake(
    stake: &mut Stake,
    stake_lamports: u64,
    voter_pubkey: &Pubkey,
    epoch: u64,
    oracle: &BoundsOracle,
) -> (r: Result<(), StakeError>)
    ensures
        match r {
            Ok(()) => redelegated(old(stake)@, stake_lamports, voter_pubkey@, epoch, oracle@)
                == Ok::<StakeView, StakeError>(final(stake)@),
            Err(e) => redelegated(old(stake)@, stake_lamports, voter_pubkey@, epoch, oracle@)
                == Err::<StakeView, StakeError>(e) && *final(stake) == *old(stake),
        },
{
    if get_effective_stake(stake, oracle) != 0 {
        if stake.delegation.voter_pubkey.same(voter_pubkey) && epoch
            == stake.delegation.deactivation_epoch {
            stake.delegation.deactivation_epoch = NOT_DEACTIVATING;
            return Ok(());
        } else {
            return Err(StakeError::InvalidStateForOperation);
        }
    }
    stake.delegation.stake = stake_lamports;
    stake.delegation.activation_epoch = epoch;
    stake.delegation.deactivation_epoch = NOT_DEACTIVATING;
    stake.delegation.voter_pubkey = *voter_pubkey;
    stake.credits_observed = oracle.credits_observed;
    Ok(())
}

/// Delegates an account in `state` that holds `balance` to `validator`: a
/// first delegation of an initialized account, a redelegation of a delegated
/// one.
pub fn delegate(
    state: &StakeAccountState,
    balance: u64,
    validator: &Pubkey,
    epoch: u64,
    oracle: &BoundsOracle,
) -> (r: Result<StakeAccountState, StakeError>)
    ensures
        match r {
            Ok(next) => delegate_spec(state@, balance, validator@, epoch, oracle@) == Ok::<
                StateView,
                StakeError,
            >(next@),
            Err(e) => delegate_spec(state@, balance, validator@, epoch, oracle@) == Err::<
                StateView,
                StakeError,
            >(e),
        },
{
    match state {
        StakeAccountState::Initialized(meta) => {
            let stake_amount: u64 = match validate_delegated_amount(
                balance,
                meta,
                oracle.minimum_delegation(),
            ) {
                Ok(amount) => amount,
                Err(e) => {
                    return Err(e);
                },
            };
            let stake = new_stake(stake_amount, validator, epoch, oracle.credits_observed);
            Ok(StakeAccountState::Delegated(*meta, stake, StakeFlags::empty()))
        },
        StakeAccountState::Delegated(meta, stake, flags) => {
            let stake_amount: u64 = match validate_delegated_amount(
                balance,
                meta,
                oracle.minimum_delegation(),
            ) {
                Ok(amount) => amount,
                Err(e) => {
                    return Err(e);
                },
            };
            let mut stake: Stake = *stake;
            match redelegate_stake(&mut stake, stake_amount, validator, epoch, oracle) {
                Ok(()) => Ok(StakeAccountState::Delegated(*meta, stake, *flags)),
                Err(e) => Err(e),
            }
        },
        StakeAccountState::Uninitialized => Err(StakeError::InvalidStateForOperation),
    }
}

/// Splits `split_lamports` off an account in state `source` that holds
/// `source_balance`, into an account in state `destination`, which must be
/// uninitialized. The destination takes over the source's meta, with the
/// reserve that the oracle gives, and its share of the delegation. A source
/// that gives its whole balance is reset.
pub fn split(
    source: &StakeAccountState,
    destination: &StakeAccountState,
    split_lamports: u64,
    source_balance: u64,
    oracle: &BoundsOracle,
) -> (r: Result<(StakeAccountState, StakeAccountState, u64), StakeError>)
    ensures
        match r {
            Ok((source_next, destination_next, amount)) => split_spec(
                source@,
                destination@,
                split_lamports,
                source_balance,
                oracle@,
            ) == Ok::<(StateView, StateView, u64), StakeError>(
                (source_next@, destination_next@, amount),
            ),
            Err(e) => split_spec(source@, destination@, split_lamports, source_balance, oracle@)
                == Err::<(StateView, StateView, u64), StakeError>(e),
        },
{
    match destination {
        StakeAccountState::Uninitialized => {},
        _ => {
            return Err(StakeError::InvalidTarget);
        },
    }
    if split_lamports > source_balance {
        return Err(StakeError::InsufficientBalance);
    }
    let emptied: bool = split_lamports == source_balance;
    match source {
        StakeAccountState::Delegated(source_meta, source_stake, stake_flags) => {
            let minimum_delegation: u64 = oracle.minimum_delegation();
            let (remaining_stake_delta, split_stake_amount): (u64, u64) =
                if !oracle.destination_prefunded {
                let amount: u64 = if split_lamports >= source_meta.rent_exempt_reserve {
                    split_lamports - source_meta.rent_exempt_reserve
                } else {
                    0
                };
                (amount, amount)
            } else {
                let remaining: u64 = if source_stake.delegation.stake >= split_lamports {
                    source_stake.delegation.stake - split_lamports
                } else {
                    0
                };
                if remaining < minimum_delegation {
                    return Err(StakeError::BelowMinimumDelegation);
                }
                let amount: u64 = if split_lamports >= oracle.reserve_adjustment {
                    split_lamports - oracle.reserve_adjustment
                } else {
                    0
                };
                (split_lamports, amount)
            };
            if split_stake_amount < minimum_delegation {
                return Err(StakeError::BelowMinimumDelegation);
            }
            let mut source_stake: Stake = *source_stake;
            let destination_stake = match source_stake.split(
                remaining_stake_delta,
                split_stake_amount,
            ) {
                Ok(stake) => stake,
                Err(e) => {
                    return Err(e);
                },
            };
            let mut destination_meta: Meta = *source_meta;
            destination_meta.rent_exempt_reserve = oracle.rent_exempt_reserve_for(
                crate::codec::STAKE_STATE_SIZE,
            );
            let source_next = if emptied {
                StakeAccountState::Uninitialized
            } else {
                StakeAccountState::Delegated(*source_meta, source_stake, *stake_flags)
            };
            Ok(
                (
                    source_next,
                    StakeAccountState::Delegated(destination_meta, destination_stake, *stake_flags),
                    split_lamports,
                ),
            )
        },
        StakeAccountState::Initialized(source_meta) => {
            let mut destination_meta: Meta = *source_meta;
            destination_meta.rent_exempt_reserve = oracle.rent_exempt_reserve_for(
                crate::codec::STAKE_STATE_SIZE,
            );
            let source_next = if emptied {
                StakeAccountState::Uninitialized
            } else {
                *source
            };
            Ok((source_next, StakeAccountState::Initialized(destination_meta), split_lamports))
        },
        StakeAccountState::Uninitialized => Ok(
            (StakeAccountState::Uninitialized, StakeAccountState::Uninitialized, split_lamports),
        ),
    }
}

/// Merges an account in state `source` that holds `source_balance` into one
/// in state `destination`. Both must be initialized or delegated, with the
/// same authorities. The destination keeps its meta and gets the stake that
/// the oracle gives; the source is reset and gives its whole balance.
pub fn merge(
    destination: &StakeAccountState,
    source: &StakeAccountState,
    source_balance: u64,
    oracle: &BoundsOracle,
) -> (r: Result<(StakeAccountState, StakeAccountState, u64), StakeError>)
    ensures
        match r {
            Ok((destination_next, source_next, amount)) => merge_spec(
                destination@,
                source@,
                source_balance,
                oracle@,
            ) == Ok::<(StateView, StateView, u64), StakeError>(
                (destination_next@, source_next@, amount),
            ),
            Err(e) => merge_spec(destination@, source@, source_balance, oracle@) == Err::<
                (StateView, StateView, u64),
                StakeError,
            >(e),
        },
{
    let source_meta: Meta = match source {
        StakeAccountState::Initialized(meta) => *meta,
        StakeAccountState::Delegated(meta, _, _) => *meta,
        StakeAccountState::Uninitialized => {
            return Err(StakeError::InvalidStateForOperation);
        },
    };
    let destination_meta: Meta = match destination {
        StakeAccountState::Initialized(meta) => *meta,
        StakeAccountState::Delegated(meta, _, _) => *meta,
        StakeAccountState::Uninitialized => {
            return Err(StakeError::InvalidStateForOperation);
        },
    };
    if !destination_meta.authorized.same(&source_meta.authorized) {
        return Err(StakeError::IncompatibleAuthorities);
    }
    Ok(
        (
            StakeAccountState::Delegated(
                destination_meta,
                oracle.merged_stake,
                StakeFlags::empty(),
            ),
            StakeAccountState::Uninitialized,
            source_balance,
        ),
    )
}

} // verus!
