//! What holds of the operations, whatever their inputs.

use vstd::prelude::*;
use crate::account::{relocated, AccountView};
use crate::codec::{lemma_decoded_stored, STAKE_STATE_SIZE};
use crate::engine::{
    delegate_spec, delegated_amount, merge_spec, redelegated, saturating_sub, split_spec,
    withdraw_is_staked, withdraw_reserve, withdraw_spec, withdraw_staked,
};
use crate::error::StakeError;
use crate::oracle::OracleView;
use crate::processor::{merged_accounts, split_accounts, withdrawn};
use crate::state::{MetaView, StakeFlags, StakeView, StateView, NOT_DEACTIVATING};

verus! {

/// A relocation that succeeds keeps the sum of the two balances.
pub proof fn lemma_relocation_conserves(
    source: AccountView,
    destination: AccountView,
    lamports: u64,
)
    ensures
        relocated(source, destination, lamports) matches Ok((source_after, destination_after))
            ==> source.lamports + destination.lamports == source_after.lamports
            + destination_after.lamports,
{
}

/// A withdrawal, a split and a merge that succeed keep the sum of the
/// balances of the two accounts they touch.
pub proof fn lemma_operations_conserve(
    first: AccountView,
    second: AccountView,
    epoch: u64,
    lamports: u64,
    oracle: OracleView,
)
    ensures
        withdrawn(first, second, epoch, lamports, oracle) matches Ok((source, destination))
            ==> source.lamports + destination.lamports == first.lamports + second.lamports,
        split_accounts(first, second, lamports, oracle) matches Ok((source, destination))
            ==> source.lamports + destination.lamports == first.lamports + second.lamports,
        merged_accounts(first, second, oracle) matches Ok((destination, source))
            ==> source.lamports + destination.lamports == first.lamports + second.lamports,
{
}

/// Withdrawing the whole balance fails for a delegated account of which some
/// stake counts as bound.
pub proof fn lemma_full_withdrawal_of_staked_fails(
    meta: MetaView,
    stake: StakeView,
    flags: StakeFlags,
    epoch: u64,
    balance: u64,
    oracle: OracleView,
)
    requires
        withdraw_staked(stake, epoch, oracle) != 0,
    ensures
        withdraw_spec(StateView::Delegated(meta, stake, flags), epoch, balance, balance, oracle)
            is Err,
{
}

/// Withdrawing the whole balance succeeds and resets the account when the
/// account is not delegated, or when its deactivation epoch has come and
/// nothing of its stake is effective any more.
pub proof fn lemma_full_withdrawal_of_unstaked_resets(
    state: StateView,
    epoch: u64,
    balance: u64,
    oracle: OracleView,
)
    requires
        state matches StateView::Delegated(_, stake, _) ==> epoch
            >= stake.delegation.deactivation_epoch && oracle.effective_stake_bound(
            stake.delegation.stake,
        ) == 0,
    ensures
        !withdraw_is_staked(state, epoch, oracle),
        withdraw_spec(state, epoch, balance, balance, oracle) == Ok::<(StateView, u64), StakeError>(
            (StateView::Uninitialized, balance),
        ),
{
}

/// A withdrawal of less than the balance succeeds exactly when it leaves the
/// reserve in the account. It then leaves the state as it is, and with it the
/// reserve and the stake.
pub proof fn lemma_partial_withdrawal(
    state: StateView,
    epoch: u64,
    lamports: u64,
    balance: u64,
    oracle: OracleView,
)
    requires
        lamports != balance,
    ensures
        withdraw_spec(state, epoch, lamports, balance, oracle) is Ok <==> lamports
            + withdraw_reserve(state, epoch, oracle) <= balance,
        withdraw_spec(state, epoch, lamports, balance, oracle) is Ok ==> withdraw_spec(
            state,
            epoch,
            lamports,
            balance,
            oracle,
        ) == Ok::<(StateView, u64), StakeError>((state, lamports)),
{
}

/// After a withdrawal from a funded account that succeeds without emptying
/// it, the balance still covers the rent-exempt reserve.
pub proof fn lemma_withdrawal_keeps_rent_reserve(
    state: StateView,
    epoch: u64,
    lamports: u64,
    balance: u64,
    oracle: OracleView,
)
    requires
        lamports != balance,
        withdraw_spec(state, epoch, lamports, balance, oracle) is Ok,
    ensures
        state matches StateView::Initialized(meta) ==> balance - lamports
            >= meta.rent_exempt_reserve,
        state matches StateView::Delegated(meta, _, _) ==> balance - lamports
            >= meta.rent_exempt_reserve,
{
}

/// Delegating a stake again to its own validator, in the epoch for which its
/// deactivation is scheduled, succeeds and leaves it not deactivating.
pub proof fn lemma_redelegate_rescinds(
    stake: StakeView,
    stake_lamports: u64,
    oracle: OracleView,
)
    ensures
        redelegated(
            stake,
            stake_lamports,
            stake.delegation.voter_pubkey,
            stake.delegation.deactivation_epoch,
            oracle,
        ) matches Ok(next) && next.delegation.deactivation_epoch == NOT_DEACTIVATING
            && next.delegation.voter_pubkey == stake.delegation.voter_pubkey,
{
}

/// Where such a stake is still effective, that is all that changes: the
/// delegated amount, the activation epoch and the credits stay.
pub proof fn lemma_redelegate_of_active_keeps_stake(
    stake: StakeView,
    stake_lamports: u64,
    oracle: OracleView,
)
    requires
        oracle.effective_stake_bound(stake.delegation.stake) != 0,
    ensures
        redelegated(
            stake,
            stake_lamports,
            stake.delegation.voter_pubkey,
            stake.delegation.deactivation_epoch,
            oracle,
        ) == Ok::<StakeView, StakeError>(stake.with_deactivation(NOT_DEACTIVATING)),
{
}

/// The same of the whole operation: a delegated account whose balance covers
/// a valid delegation, delegated again to its own validator in its
/// deactivation epoch, stays delegated and is not deactivating; where its
/// stake is still effective, the delegated amount is unchanged.
pub proof fn lemma_delegate_rescinds(
    meta: MetaView,
    stake: StakeView,
    flags: StakeFlags,
    balance: u64,
    oracle: OracleView,
)
    requires
        delegated_amount(balance, meta, oracle.minimum_delegation) is Ok,
    ensures
        delegate_spec(
            StateView::Delegated(meta, stake, flags),
            balance,
            stake.delegation.voter_pubkey,
            stake.delegation.deactivation_epoch,
            oracle,
        ) matches Ok(StateView::Delegated(next_meta, next, next_flags)) && next_meta == meta
            && next_flags == flags && next.delegation.deactivation_epoch == NOT_DEACTIVATING && (
        oracle.effective_stake_bound(stake.delegation.stake) != 0 ==> next.delegation.stake
            == stake.delegation.stake),
{
    lemma_redelegate_rescinds(stake, delegated_amount(balance, meta, oracle.minimum_delegation)->Ok_0, oracle);
}

/// A first delegation that succeeds delegates what the balance holds above
/// the rent-exempt reserve, and at least the minimum delegation.
pub proof fn lemma_first_delegation_reaches_minimum(
    meta: MetaView,
    balance: u64,
    validator: Seq<u8>,
    epoch: u64,
    oracle: OracleView,
)
    requires
        delegate_spec(StateView::Initialized(meta), balance, validator, epoch, oracle) is Ok,
    ensures
        delegate_spec(StateView::Initialized(meta), balance, validator, epoch, oracle) matches Ok(
            StateView::Delegated(_, stake, _),
        ) && stake.delegation.stake == saturating_sub(balance, meta.rent_exempt_reserve)
            && stake.delegation.stake >= oracle.minimum_delegation
            && stake.delegation.deactivation_epoch == NOT_DEACTIVATING,
{
}

/// A split of a delegated account that succeeds gives the destination a
/// delegation of at least the minimum, to the same validator with the same
/// epochs. The source is reset exactly when it gave its whole balance.
/// Otherwise the two stakes relate as follows. Into a destination that counts
/// as empty, they add up to the stake before. Into one that counts as funded,
/// the source's stake went down by the lamports split off, and the
/// destination's is those lamports less the oracle's adjustment.
pub proof fn lemma_split_stakes(
    meta: MetaView,
    stake: StakeView,
    flags: StakeFlags,
    destination: StateView,
    split_lamports: u64,
    source_balance: u64,
    oracle: OracleView,
)
    requires
        split_spec(
            StateView::Delegated(meta, stake, flags),
            destination,
            split_lamports,
            source_balance,
            oracle,
        ) is Ok,
    ensures
        ({
            let (source_next, destination_next, amount) = split_spec(
                StateView::Delegated(meta, stake, flags),
                destination,
                split_lamports,
                source_balance,
                oracle,
            )->Ok_0;
            &&& amount == split_lamports
            &&& destination_next matches StateView::Delegated(_, split, split_flags)
            &&& split.delegation.stake >= oracle.minimum_delegation
            &&& split == stake.with_stake(split.delegation.stake)
            &&& split_flags == flags
            &&& (split_lamports == source_balance <==> source_next == StateView::Uninitialized)
            &&& split_lamports != source_balance ==> {
                &&& source_next matches StateView::Delegated(rest_meta, rest, rest_flags)
                &&& rest_meta == meta
                &&& rest_flags == flags
                &&& rest == stake.with_stake(rest.delegation.stake)
                &&& !oracle.destination_prefunded ==> rest.delegation.stake
                    + split.delegation.stake == stake.delegation.stake
                &&& oracle.destination_prefunded ==> rest.delegation.stake + split_lamports
                    == stake.delegation.stake && split.delegation.stake == saturating_sub(
                    split_lamports,
                    oracle.reserve_adjustment,
                )
            }
        }),
{
}

/// A merge that succeeds resets the source and relocates its whole balance.
pub proof fn lemma_merge_resets_source(
    destination: StateView,
    source: StateView,
    source_balance: u64,
    oracle: OracleView,
)
    requires
        merge_spec(destination, source, source_balance, oracle) is Ok,
    ensures
        merge_spec(destination, source, source_balance, oracle) matches Ok(
            (destination_next, source_next, amount),
        ) && source_next == StateView::Uninitialized && amount == source_balance
            && destination_next is Delegated,
{
}

/// After a merge of two accounts that succeeds, the source's record holds the
/// uninitialized state and its balance is zero.
pub proof fn lemma_merge_terminal(destination: AccountView, source: AccountView, oracle: OracleView)
    requires
        merged_accounts(destination, source, oracle) is Ok,
    ensures
        merged_accounts(destination, source, oracle) matches Ok((_, source_after))
            && source_after.state() == Some(StateView::Uninitialized) && source_after.lamports
            == 0 && source_after.key == source.key,
{
    assert(source.data.len() == STAKE_STATE_SIZE);
    lemma_decoded_stored(StateView::Uninitialized, source.data);
}

/// An account whose record was written holds the state that was written; its
/// address and its balance are as before.
pub proof fn lemma_written_state_is_held(account: AccountView, state: StateView)
    requires
        account.data.len() == STAKE_STATE_SIZE,
        state.wf(),
    ensures
        account.with_state(state).state() == Some(state),
        account.with_state(state).key == account.key,
        account.with_state(state).lamports == account.lamports,
        account.with_state(state).data.len() == STAKE_STATE_SIZE,
{
    lemma_decoded_stored(state, account.data);
}

} // verus!
