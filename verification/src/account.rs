//! A stake account as the operations see it: an address, a balance in
//! lamports and the bytes of its record.

use vstd::prelude::*;
use crate::codec::{
    decoded, stake_from_slice_unchecked, stake_to_slice_unchecked, stored,
    write_uninitialized_stake_to_slice, STAKE_STATE_SIZE,
};
use crate::error::StakeError;
use crate::state::{Pubkey, StakeAccountState, StateView};

verus! {

/// An account that holds a stake record.
#[derive(Clone, Debug, PartialEq, Eq)]
pub struct StakeAccount {
    pub key: Pubkey,
    pub lamports: u64,
    pub data: Vec<u8>,
}

/// A `StakeAccount` with its address and its record as byte sequences.
pub struct AccountView {
    pub key: Seq<u8>,
    pub lamports: u64,
    pub data: Seq<u8>,
}

impl View for StakeAccount {
    type V = AccountView;

    open spec fn view(&self) -> AccountView {
        AccountView { key: self.key@, lamports: self.lamports, data: self.data@ }
    }
}

impl AccountView {
    /// The state that the account's record holds, if it is a record.
    pub open spec fn state(self) -> Option<StateView> {
        decoded(self.data)
    }

    /// The account after `state` was written into its record.
    pub open spec fn with_state(self, state: StateView) -> AccountView {
        AccountView { data: stored(state, self.data), ..self }
    }

    /// The account with another balance.
    pub open spec fn with_lamports(self, lamports: u64) -> AccountView {
        AccountView { lamports, ..self }
    }
}

/// Moving `lamports` from `source` to `destination`: both accounts afterwards.
/// The source must hold the amount and the destination's balance must stay in
/// range.
pub open spec fn relocated(source: AccountView, destination: AccountView, lamports: u64) -> Result<
    (AccountView, AccountView),
    StakeError,
> {
    if source.lamports < lamports || destination.lamports + lamports > u64::MAX {
        Err(StakeError::ArithmeticFault)
    } else {
        Ok(
            (
                source.with_lamports((source.lamports - lamports) as u64),
                destination.with_lamports((destination.lamports + lamports) as u64),
            ),
        )
    }
}

/// An operation on one account ended as `expected` says: done, with the
/// account as given there, or refused, with the account unchanged.
pub open spec fn account_outcome(
    expected: Result<AccountView, StakeError>,
    r: Result<(), StakeError>,
    before: AccountView,
    after: AccountView,
) -> bool {
    match expected {
        Ok(account) => r is Ok && after == account,
        Err(e) => r == Err::<(), StakeError>(e) && after == before,
    }
}

/// An operation on two accounts ended as `expected` says: done, with the
/// accounts as given there, or refused, with both accounts unchanged.
pub open spec fn accounts_outcome(
    expected: Result<(AccountView, AccountView), StakeError>,
    r: Result<(), StakeError>,
    before: (AccountView, AccountView),
    after: (AccountView, AccountView),
) -> bool {
    match expected {
        Ok(accounts) => r is Ok && after == accounts,
        Err(e) => r == Err::<(), StakeError>(e) && after == before,
    }
}

/// Moves `lamports` from `source` to `destination`, or fails with
/// `ArithmeticFault` and moves nothing. The sum of the two balances stays.
pub fn relocate_lamports(
    source: &mut StakeAccount,
    destination: &mut StakeAccount,
    lamports: u64,
) -> (r: Result<(), StakeError>)
    ensures
        accounts_outcome(
            relocated(old(source)@, old(destination)@, lamports),
            r,
            (old(source)@, old(destination)@),
            (final(source)@, final(destination)@),
        ),
        final(source).lamports + final(destination).lamports == old(source).lamports + old(
            destination,
        ).lamports,
{
    let source_lamports: u64 = match source.lamports.checked_sub(lamports) {
        Some(rest) => rest,
        None => {
            return Err(StakeError::ArithmeticFault);
        },
    };
    let destination_lamports: u64 = match destination.lamports.checked_add(lamports) {
        Some(sum) => sum,
        None => {
            return Err(StakeError::ArithmeticFault);
        },
    };
    source.lamports = source_lamports;
    destination.lamports = destination_lamports;
    Ok(())
}

/// Reads the state that the account's record holds.
pub fn stake_from_account_info_unchecked(account: &StakeAccount) -> (r: Result<
    StakeAccountState,
    StakeError,
>)
    ensures
        match r {
            Ok(state) => account@.state() == Some(state@),
            Err(e) => e == StakeError::MalformedRecord && account@.state().is_none(),
        },
{
    stake_from_slice_unchecked(account.data.as_slice())
}

/// Reads the state that the account's record holds.
pub fn get_stake_state(account: &StakeAccount) -> (r: Result<StakeAccountState, StakeError>)
    ensures
        match r {
            Ok(state) => account@.state() == Some(state@),
            Err(e) => e == StakeError::MalformedRecord && account@.state().is_none(),
        },
{
    stake_from_account_info_unchecked(account)
}

/// Writes `state` into the account's record.
pub fn set_stake_state(account: &mut StakeAccount, state: &StakeAccountState)
    requires
        old(account).data@.len() == STAKE_STATE_SIZE,
    ensures
        final(account)@ == old(account)@.with_state(state@),
{
    stake_to_slice_unchecked(account.data.as_mut_slice(), state);
}

/// Resets the account's record to the uninitialized state.
pub fn write_uninitialized_stake(account: &mut StakeAccount)
    requires
        old(account).data@.len() == STAKE_STATE_SIZE,
    ensures
        final(account)@ == old(account)@.with_state(StateView::Uninitialized),
{
    write_uninitialized_stake_to_slice(account.data.as_mut_slice());
}

} // verus!
