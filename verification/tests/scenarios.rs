use solana_stake_model::account::{get_stake_state, set_stake_state, StakeAccount};
use solana_stake_model::codec::STAKE_STATE_SIZE;
use solana_stake_model::engine::{delegate, withdraw};
use solana_stake_model::error::StakeError;
use solana_stake_model::oracle::BoundsOracle;
use solana_stake_model::processor::{process_delegate_with, process_withdraw_with};
use solana_stake_model::state::{
    Authorized, Delegation, Lockup, Meta, Pubkey, Stake, StakeAccountState, StakeFlags,
    DEFAULT_WARMUP_COOLDOWN_RATE_BITS,
};

fn key(fill: u8) -> Pubkey {
    Pubkey { bytes: [fill; 32] }
}

fn meta(rent_exempt_reserve: u64) -> Meta {
    Meta {
        rent_exempt_reserve,
        authorized: Authorized { staker: key(1), withdrawer: key(2) },
        lockup: Lockup { unix_timestamp: 0, epoch: 0, custodian: key(0) },
    }
}

fn stake(amount: u64, deactivation_epoch: u64) -> Stake {
    Stake {
        delegation: Delegation {
            voter_pubkey: key(9),
            stake: amount,
            activation_epoch: 1,
            deactivation_epoch,
            warmup_cooldown_rate_bits: DEFAULT_WARMUP_COOLDOWN_RATE_BITS,
        },
        credits_observed: 3,
    }
}

fn oracle(minimum_delegation: u64, effective_stake: u64) -> BoundsOracle {
    BoundsOracle {
        minimum_delegation,
        effective_stake,
        credits_observed: 11,
        destination_prefunded: false,
        reserve_adjustment: 0,
        rent_exempt_reserve: 0,
        merged_stake: stake(0, u64::MAX),
    }
}

#[test]
fn partial_withdrawal_from_active_stake_violates_reserve() {
    let state = StakeAccountState::Delegated(meta(100), stake(1000, u64::MAX), StakeFlags::empty());
    assert_eq!(
        withdraw(&state, 5, 50, 1100, &oracle(1, 1000)),
        Err(StakeError::ReserveViolation)
    );
}

#[test]
fn zero_withdrawal_after_deactivation_changes_nothing() {
    let state = StakeAccountState::Delegated(meta(100), stake(1000, 5), StakeFlags::empty());
    assert_eq!(withdraw(&state, 5, 0, 1100, &oracle(1, 0)), Ok((state, 0)));
}

#[test]
fn delegate_initialized_stakes_balance_above_reserve() {
    let state = StakeAccountState::Initialized(meta(100));
    let next = delegate(&state, 150, &key(7), 4, &oracle(1, 0)).unwrap();
    match next {
        StakeAccountState::Delegated(m, s, f) => {
            assert_eq!(m, meta(100));
            assert_eq!(s.delegation.stake, 50);
            assert_eq!(s.delegation.voter_pubkey, key(7));
            assert_eq!(s.delegation.activation_epoch, 4);
            assert_eq!(s.delegation.deactivation_epoch, u64::MAX);
            assert_eq!(s.credits_observed, 11);
            assert_eq!(f, StakeFlags::empty());
        }
        other => panic!("not delegated: {:?}", other),
    }
}

#[test]
fn delegate_initialized_without_surplus_is_below_minimum() {
    let state = StakeAccountState::Initialized(meta(100));
    assert_eq!(
        delegate(&state, 100, &key(7), 4, &oracle(1, 0)),
        Err(StakeError::BelowMinimumDelegation)
    );
}

fn stake_account(lamports: u64, state: &StakeAccountState) -> StakeAccount {
    let mut account = StakeAccount { key: key(20), lamports, data: vec![0; STAKE_STATE_SIZE] };
    set_stake_state(&mut account, state);
    account
}

#[test]
fn withdrawal_scenario_on_accounts() {
    let active =
        StakeAccountState::Delegated(meta(100), stake(1000, u64::MAX), StakeFlags::empty());
    let mut source = stake_account(1100, &active);
    let mut destination = StakeAccount { key: key(21), lamports: 0, data: Vec::new() };
    assert_eq!(
        process_withdraw_with(&mut source, &mut destination, 5, 50, &oracle(1, 1000)),
        Err(StakeError::ReserveViolation)
    );
    assert_eq!(source, stake_account(1100, &active));
    assert_eq!(destination.lamports, 0);

    let cooled = StakeAccountState::Delegated(meta(100), stake(1000, 5), StakeFlags::empty());
    let mut source = stake_account(1100, &cooled);
    assert_eq!(process_withdraw_with(&mut source, &mut destination, 5, 0, &oracle(1, 0)), Ok(()));
    assert_eq!(source, stake_account(1100, &cooled));
    assert_eq!(get_stake_state(&source), Ok(cooled));
    assert_eq!(destination.lamports, 0);
}

#[test]
fn delegation_scenarios_on_accounts() {
    let mut account = stake_account(150, &StakeAccountState::Initialized(meta(100)));
    assert_eq!(process_delegate_with(&mut account, &key(7), 4, &oracle(1, 0)), Ok(()));
    match get_stake_state(&account) {
        Ok(StakeAccountState::Delegated(_, s, _)) => assert_eq!(s.delegation.stake, 50),
        other => panic!("not delegated: {:?}", other),
    }
    let mut account = stake_account(100, &StakeAccountState::Initialized(meta(100)));
    assert_eq!(
        process_delegate_with(&mut account, &key(7), 4, &oracle(1, 0)),
        Err(StakeError::BelowMinimumDelegation)
    );
    assert_eq!(account, stake_account(100, &StakeAccountState::Initialized(meta(100))));
}
