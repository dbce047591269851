//! The operations on stake accounts.
//!
//! Each operation reads the record of every account it touches once, lets the
//! transition rules decide, and only then writes records and moves lamports. A
//! refused operation leaves every account as it was.
//!
//! An operation that consults the bounds oracle comes in two forms: `.._with`
//! takes the oracle and is stated exactly; the plain form draws an arbitrary
//! oracle and is stated for whatever was drawn.

use vstd::prelude::*;
use crate::account::{
    account_outcome, accounts_outcome, get_stake_state, relocate_lamports, relocated,
    set_stake_state, write_uninitialized_stake, AccountView, StakeAccount,
};
use crate::codec::lemma_stored_decoded;
use crate::engine::{
    authorize, authorize_spec, deactivate, deactivate_spec, delegate, delegate_spec, merge,
    merge_spec, split, split_spec, withdraw, withdraw_spec,
};
use crate::error::StakeError;
use crate::oracle::{BoundsOracle, OracleView};
use crate::state::{Pubkey, StakeAuthorize};

verus! {

/// Withdrawing `lamports` from `source` into `destination`.
pub open spec fn withdrawn(
    source: AccountView,
    destination: AccountView,
    epoch: u64,
    lamports: u64,
    oracle: OracleView,
) -> Result<(AccountView, AccountView), StakeError> {
    match source.state() {
        None => Err(StakeError::MalformedRecord),
        Some(state) => match withdraw_spec(state, epoch, lamports, source.lamports, oracle) {
            Err(e) => Err(e),
            Ok((next, amount)) => match relocated(source, destination, amount) {
                Err(e) => Err(e),
                Ok((source_after, destination_after)) => Ok(
                    (source_after.with_state(next), destination_after),
                ),
            },
        },
    }
}

/// Deactivating the delegation of `account` at `epoch`.
pub open spec fn deactivated_account(account: AccountView, epoch: u64) -> Result<
    AccountView,
    StakeError,
> {
    match account.state() {
        None => Err(StakeError::MalformedRecord),
        Some(state) => match deactivate_spec(state, epoch) {
            Err(e) => Err(e),
            Ok(next) => Ok(account.with_state(next)),
        },
    }
}

/// Replacing one authority of `account`.
pub open spec fn authorized_account(
    account: AccountView,
    new_authority: Seq<u8>,
    role: StakeAuthorize,
) -> Result<AccountView, StakeError> {
    match account.state() {
        None => Err(StakeError::MalformedRecord),
        Some(state) => match authorize_spec(state, new_authority, role) {
            Err(e) => Err(e),
            Ok(next) => Ok(account.with_state(next)),
        },
    }
}

/// Delegating what `account` holds to `validator`.
pub open spec fn delegated_account(
    account: AccountView,
    validator: Seq<u8>,
    epoch: u64,
    oracle: OracleView,
) -> Result<AccountView, StakeError> {
    match account.state() {
        None => Err(StakeError::MalformedRecord),
        Some(state) => match delegate_spec(state, account.lamports, validator, epoch, oracle) {
            Err(e) => Err(e),
            Ok(next) => Ok(account.with_state(next)),
        },
    }
}

/// Splitting `split_lamports` off `source` into `destination`. A destination
/// whose bytes are no record is no target for a split.
pub open spec fn split_accounts(
    source: AccountView,
    destination: AccountView,
    split_lamports: u64,
    oracle: OracleView,
) -> Result<(AccountView, AccountView), StakeError> {
    match destination.state() {
        None => Err(StakeError::InvalidTarget),
        Some(destination_state) => match source.state() {
            None => Err(StakeError::MalformedRecord),
            Some(source_state) => match split_spec(
                source_state,
                destination_state,
                split_lamports,
                source.lamports,
                oracle,
            ) {
                Err(e) => Err(e),
                Ok((source_next, destination_next, amount)) => match relocated(
                    source,
                    destination,
                    amount,
                ) {
                    Err(e) => Err(e),
                    Ok((source_after, destination_after)) => Ok(
                        (
                            source_after.with_state(source_next),
                            destination_after.with_state(destination_next),
                        ),
                    ),
                },
            },
        },
    }
}

/// Merging `source` into `destination`: the destination and the source
/// afterwards. An account cannot be merged into itself.
pub open spec fn merged_accounts(
    destination: AccountView,
    source: AccountView,
    oracle: OracleView,
) -> Result<(AccountView, AccountView), StakeError> {
    if source.key == destination.key {
        Err(StakeError::InvalidTarget)
    } else {
        match (source.state(), destination.state()) {
            (Some(source_state), Some(destination_state)) => match merge_spec(
                destination_state,
                source_state,
                source.lamports,
                oracle,
            ) {
                Err(e) => Err(e),
                Ok((destination_next, source_next, amount)) => match relocated(
                    source,
                    destination,
                    amount,
                ) {
                    Err(e) => Err(e),
                    Ok((source_after, destination_after)) => Ok(
                        (
                            destination_after.with_state(destination_next),
                            source_after.with_state(source_next),
                        ),
                    ),
                },
            },
            _ => Err(StakeError::MalformedRecord),
        }
    }
}

/// Withdraws `withdraw_lamports` from `source` into `destination`, with the
/// answers of `oracle`.
pub fn process_withdraw_with(
    source: &mut StakeAccount,
    destination: &mut StakeAccount,
    epoch: u64,
    withdraw_lamports: u64,
    oracle: &BoundsOracle,
) -> (r: Result<(), StakeError>)
    ensures
        accounts_outcome(
            withdrawn(old(source)@, old(destination)@, epoch, withdraw_lamports, oracle@),
            r,
            (old(source)@, old(destination)@),
            (final(source)@, final(destination)@),
        ),
{
    let state = match get_stake_state(source) {
        Ok(state) => state,
        Err(e) => {
            return Err(e);
        },
    };
    let balance: u64 = source.lamports;
    let (next, amount) = match withdraw(&state, epoch, withdraw_lamports, balance, oracle) {
        Ok(step) => step,
        Err(e) => {
            return Err(e);
        },
    };
    match relocate_lamports(source, destination, amount) {
        Ok(()) => {},
        Err(e) => {
            return Err(e);
        },
    }
    if withdraw_lamports == balance {
        write_uninitialized_stake(source);
    } else {
        proof {
            lemma_stored_decoded(old(source).data@, state@);
        }
    }
    Ok(())
}

/// Withdraws `withdraw_lamports` from `source` into `destination`, with an
/// arbitrary oracle.
pub fn process_withdraw(
    source: &mut StakeAccount,
    destination: &mut StakeAccount,
    epoch: u64,
    withdraw_lamports: u64,
) -> (r: Result<(), StakeError>)
    ensures
        exists|oracle: OracleView|
            oracle.minimum_delegation == crate::minimum_delegation() && accounts_outcome(
                #[trigger] withdrawn(
                    old(source)@,
                    old(destination)@,
                    epoch,
                    withdraw_lamports,
                    oracle,
                ),
                r,
                (old(source)@, old(destination)@),
                (final(source)@, final(destination)@),
            ),
{
    let oracle = BoundsOracle::nondet();
    process_withdraw_with(source, destination, epoch, withdraw_lamports, &oracle)
}

/// Schedules the delegation of `account` to deactivate at `epoch`.
pub fn process_deactivate(account: &mut StakeAccount, epoch: u64) -> (r: Result<(), StakeError>)
    ensures
        account_outcome(
            deactivated_account(old(account)@, epoch),
            r,
            old(account)@,
            final(account)@,
        ),
{
    let state = match get_stake_state(account) {
        Ok(state) => state,
        Err(e) => {
            return Err(e);
        },
    };
    match deactivate(&state, epoch) {
        Ok(next) => {
            set_stake_state(account, &next);
            Ok(())
        },
        Err(e) => Err(e),
    }
}

/// Replaces one authority of `account` by `new_authority`.
pub fn do_authorize(
    account: &mut StakeAccount,
    new_authority: &Pubkey,
    authority_type: StakeAuthorize,
) -> (r: Result<(), StakeError>)
    ensures
        account_outcome(
            authorized_account(old(account)@, new_authority@, authority_type),
            r,
            old(account)@,
            final(account)@,
        ),
{
    let state = match get_stake_state(account) {
        Ok(state) => state,
        Err(e) => {
            return Err(e);
        },
    };
    match authorize(&state, new_authority, authority_type) {
        Ok(next) => {
            set_stake_state(account, &next);
            Ok(())
        },
        Err(e) => Err(e),
    }
}

/// Replaces one authority of `account` by `new_authority`. Whether the caller
/// may do so is not checked here.
pub fn process_authorize(
    account: &mut StakeAccount,
    new_authority: &Pubkey,
    authority_type: StakeAuthorize,
) -> (r: Result<(), StakeError>)
    ensures
        account_outcome(
            authorized_account(old(account)@, new_authority@, authority_type),
            r,
            old(account)@,
            final(account)@,
        ),
{
    do_authorize(account, new_authority, authority_type)
}

/// Delegates what `account` holds above its reserve to the validator
/// `vote_account`, with the answers of `oracle`.
pub fn process_delegate_with(
    account: &mut StakeAccount,
    vote_account: &Pubkey,
    epoch: u64,
    oracle: &BoundsOracle,
) -> (r: Result<(), StakeError>)
    ensures
        account_outcome(
            delegated_account(old(account)@, vote_account@, epoch, oracle@),
            r,
            old(account)@,
            final(account)@,
        ),
{
    let state = match get_stake_state(account) {
        Ok(state) => state,
        Err(e) => {
            return Err(e);
        },
    };
    match delegate(&state, account.lamports, vote_account, epoch, oracle) {
        Ok(next) => {
            set_stake_state(account, &next);
            Ok(())
        },
        Err(e) => Err(e),
    }
}

/// Delegates what `account` holds above its reserve to the validator
/// `vote_account`, with an arbitrary oracle.
pub fn process_delegate(account: &mut StakeAccount, vote_account: &Pubkey, epoch: u64) -> (r:
    Result<(), StakeError>)
    ensures
        exists|oracle: OracleView|
            oracle.minimum_delegation == crate::minimum_delegation() && account_outcome(
                #[trigger] delegated_account(old(account)@, vote_account@, epoch, oracle),
                r,
                old(account)@,
                final(account)@,
            ),
{
    let oracle = BoundsOracle::nondet();
    process_delegate_with(account, vote_account, epoch, &oracle)
}

/// Splits `split_lamports` off `source` into `destination`, with the answers
/// of `oracle`.
pub fn process_split_with(
    source: &mut StakeAccount,
    destination: &mut StakeAccount,
    split_lamports: u64,
    oracle: &BoundsOracle,
) -> (r: Result<(), StakeError>)
    ensures
        accounts_outcome(
            split_accounts(old(source)@, old(destination)@, split_lamports, oracle@),
            r,
            (old(source)@, old(destination)@),
            (final(source)@, final(destination)@),
        ),
{
    let destination_state = match get_stake_state(destination) {
        Ok(state) => state,
        Err(_) => {
            return Err(StakeError::InvalidTarget);
        },
    };
    let source_state = match get_stake_state(source) {
        Ok(state) => state,
        Err(e) => {
            return Err(e);
        },
    };
    let (source_next, destination_next, amount) = match split(
        &source_state,
        &destination_state,
        split_lamports,
        source.lamports,
        oracle,
    ) {
        Ok(step) => step,
        Err(e) => {
            return Err(e);
        },
    };
    match relocate_lamports(source, destination, amount) {
        Ok(()) => {},
        Err(e) => {
            return Err(e);
        },
    }
    set_stake_state(source, &source_next);
    set_stake_state(destination, &destination_next);
    Ok(())
}

/// Splits `split_lamports` off `source` into `destination`, with an arbitrary
/// oracle.
pub fn process_split(
    source: &mut StakeAccount,
    destination: &mut StakeAccount,
    split_lamports: u64,
) -> (r: Result<(), StakeError>)
    ensures
        exists|oracle: OracleView|
            oracle.minimum_delegation == crate::minimum_delegation() && accounts_outcome(
                #[trigger] split_accounts(
                    old(source)@,
                    old(destination)@,
                    split_lamports,
                    oracle,
                ),
                r,
                (old(source)@, old(destination)@),
                (final(source)@, final(destination)@),
            ),
{
    let oracle = BoundsOracle::nondet();
    process_split_with(source, destination, split_lamports, &oracle)
}

/// Merges `source` into `destination`, with the answers of `oracle`.
pub fn process_merge_with(
    destination: &mut StakeAccount,
    source: &mut StakeAccount,
    oracle: &BoundsOracle,
) -> (r: Result<(), StakeError>)
    ensures
        accounts_outcome(
            merged_accounts(old(destination)@, old(source)@, oracle@),
            r,
            (old(destination)@, old(source)@),
            (final(destination)@, final(source)@),
        ),
{
    if source.key.same(&destination.key) {
        return Err(StakeError::InvalidTarget);
    }
    let source_state = match get_stake_state(source) {
        Ok(state) => state,
        Err(e) => {
            return Err(e);
        },
    };
    let destination_state = match get_stake_state(destination) {
        Ok(state) => state,
        Err(e) => {
            return Err(e);
        },
    };
    let (destination_next, source_next, amount) = match merge(
        &destination_state,
        &source_state,
        source.lamports,
        oracle,
    ) {
        Ok(step) => step,
        Err(e) => {
            return Err(e);
        },
    };
    match relocate_lamports(source, destination, amount) {
        Ok(()) => {},
        Err(e) => {
            return Err(e);
        },
    }
    set_stake_state(destination, &destination_next);
    write_uninitialized_stake(source);
    Ok(())
}

/// Merges `source` into `destination`, with an arbitrary oracle.
pub fn process_merge(destination: &mut StakeAccount, source: &mut StakeAccount) -> (r: Result<
    (),
    StakeError,
>)
    ensures
        exists|oracle: OracleView|
            oracle.minimum_delegation == crate::minimum_delegation() && accounts_outcome(
                #[trigger] merged_accounts(old(destination)@, old(source)@, oracle),
                r,
                (old(destination)@, old(source)@),
                (final(destination)@, final(source)@),
            ),
{
    let oracle = BoundsOracle::nondet();
    process_merge_with(destination, source, &oracle)
}

} // verus!
