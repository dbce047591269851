use solana_stake_model::engine::{
    authorize, deactivate, delegate, merge, meta_authorized_authorize, new_stake,
    redelegate_stake, split, validate_delegated_amount, withdraw,
};
use solana_stake_model::error::StakeError;
use solana_stake_model::oracle::BoundsOracle;
use solana_stake_model::state::{
    Authorized, Delegation, Lockup, Meta, Pubkey, Stake, StakeAccountState, StakeAuthorize,
    StakeFlags, DEFAULT_WARMUP_COOLDOWN_RATE_BITS, NOT_DEACTIVATING,
};

const VALIDATOR: u8 = 9;

fn key(fill: u8) -> Pubkey {
    Pubkey { bytes: [fill; 32] }
}

fn meta(rent_exempt_reserve: u64) -> Meta {
    Meta {
        rent_exempt_reserve,
        authorized: Authorized { staker: key(1), withdrawer: key(2) },
        lockup: Lockup { unix_timestamp: 12, epoch: 34, custodian: key(3) },
    }
}

fn stake(amount: u64, deactivation_epoch: u64) -> Stake {
    Stake {
        delegation: Delegation {
            voter_pubkey: key(VALIDATOR),
            stake: amount,
            activation_epoch: 1,
            deactivation_epoch,
            warmup_cooldown_rate_bits: 0x1234,
        },
        credits_observed: 3,
    }
}

fn delegated(rent: u64, amount: u64, deactivation_epoch: u64) -> StakeAccountState {
    StakeAccountState::Delegated(meta(rent), stake(amount, deactivation_epoch), StakeFlags { bits: 1 })
}

fn oracle() -> BoundsOracle {
    BoundsOracle {
        minimum_delegation: 1,
        effective_stake: 0,
        credits_observed: 11,
        destination_prefunded: false,
        reserve_adjustment: 0,
        rent_exempt_reserve: 77,
        merged_stake: stake(4242, 8),
    }
}

fn effective(sample: u64) -> BoundsOracle {
    BoundsOracle { effective_stake: sample, ..oracle() }
}

#[test]
fn full_withdrawal_resets_an_initialized_account() {
    let state = StakeAccountState::Initialized(meta(100));
    assert_eq!(
        withdraw(&state, 5, 150, 150, &oracle()),
        Ok((StakeAccountState::Uninitialized, 150))
    );
}

#[test]
fn full_withdrawal_from_an_uninitialized_account() {
    let state = StakeAccountState::Uninitialized;
    assert_eq!(withdraw(&state, 5, 9, 9, &oracle()), Ok((StakeAccountState::Uninitialized, 9)));
    assert_eq!(withdraw(&state, 5, 0, 0, &oracle()), Ok((StakeAccountState::Uninitialized, 0)));
}

#[test]
fn full_withdrawal_fails_before_the_deactivation_epoch() {
    assert_eq!(
        withdraw(&delegated(100, 1000, NOT_DEACTIVATING), 5, 1100, 1100, &effective(0)),
        Err(StakeError::ReserveViolation)
    );
    assert_eq!(
        withdraw(&delegated(100, 1000, 6), 5, 1100, 1100, &effective(0)),
        Err(StakeError::ReserveViolation)
    );
    assert_eq!(
        withdraw(&delegated(100, 0, 6), 5, 100, 100, &effective(0)),
        Err(StakeError::ReserveViolation)
    );
}

#[test]
fn full_withdrawal_after_deactivation_depends_on_effective_stake() {
    let state = delegated(100, 1000, 5);
    assert_eq!(
        withdraw(&state, 5, 1100, 1100, &effective(0)),
        Ok((StakeAccountState::Uninitialized, 1100))
    );
    assert_eq!(
        withdraw(&state, 5, 1100, 1100, &effective(1)),
        Err(StakeError::ReserveViolation)
    );
    assert_eq!(
        withdraw(&state, 9, 1100, 1100, &effective(u64::MAX)),
        Err(StakeError::ReserveViolation)
    );
}

#[test]
fn partial_withdrawal_must_leave_the_reserve() {
    let state = StakeAccountState::Initialized(meta(100));
    assert_eq!(withdraw(&state, 5, 50, 151, &oracle()), Ok((state, 50)));
    assert_eq!(withdraw(&state, 5, 51, 151, &oracle()), Ok((state, 51)));
    assert_eq!(withdraw(&state, 5, 52, 151, &oracle()), Err(StakeError::ReserveViolation));
    let state = delegated(100, 1000, NOT_DEACTIVATING);
    assert_eq!(withdraw(&state, 5, 400, 1500, &effective(0)), Ok((state, 400)));
    assert_eq!(withdraw(&state, 5, 401, 1500, &effective(0)), Err(StakeError::ReserveViolation));
}

#[test]
fn partial_withdrawal_after_deactivation_counts_effective_stake() {
    let state = delegated(100, 1000, 5);
    assert_eq!(withdraw(&state, 5, 1000, 1500, &effective(400)), Ok((state, 1000)));
    assert_eq!(
        withdraw(&state, 5, 1001, 1500, &effective(400)),
        Err(StakeError::ReserveViolation)
    );
    assert_eq!(withdraw(&state, 7, 1400, 1500, &effective(0)), Ok((state, 1400)));
}

#[test]
fn effective_stake_counts_up_to_the_delegated_amount() {
    let state = delegated(100, 1000, 5);
    assert_eq!(withdraw(&state, 5, 900, 2000, &effective(u64::MAX)), Ok((state, 900)));
    assert_eq!(
        withdraw(&state, 5, 901, 2000, &effective(u64::MAX)),
        Err(StakeError::ReserveViolation)
    );
}

#[test]
fn withdrawal_above_the_balance_fails() {
    assert_eq!(
        withdraw(&StakeAccountState::Uninitialized, 5, 10, 5, &oracle()),
        Err(StakeError::InsufficientBalance)
    );
    assert_eq!(
        withdraw(&StakeAccountState::Initialized(meta(100)), 5, 151, 150, &oracle()),
        Err(StakeError::InsufficientBalance)
    );
    assert_eq!(
        withdraw(&StakeAccountState::Initialized(meta(u64::MAX)), 5, 151, 150, &oracle()),
        Err(StakeError::InsufficientBalance)
    );
    assert_eq!(
        withdraw(&StakeAccountState::Initialized(meta(100)), 5, 149, 150, &oracle()),
        Err(StakeError::ReserveViolation)
    );
}

#[test]
fn withdrawal_reports_arithmetic_faults() {
    assert_eq!(
        withdraw(&delegated(1, u64::MAX, NOT_DEACTIVATING), 5, 1, 10, &oracle()),
        Err(StakeError::ArithmeticFault)
    );
    assert_eq!(
        withdraw(&delegated(1, u64::MAX, NOT_DEACTIVATING), 5, 10, 10, &oracle()),
        Err(StakeError::ArithmeticFault)
    );
    assert_eq!(
        withdraw(&StakeAccountState::Initialized(meta(u64::MAX)), 5, 1, 10, &oracle()),
        Err(StakeError::ArithmeticFault)
    );
}

#[test]
fn deactivate_sets_the_epoch() {
    assert_eq!(deactivate(&delegated(100, 1000, NOT_DEACTIVATING), 9), Ok(delegated(100, 1000, 9)));
}

#[test]
fn deactivate_is_idempotent() {
    let once = deactivate(&delegated(100, 1000, NOT_DEACTIVATING), 9).unwrap();
    assert_eq!(deactivate(&once, 9), Ok(once));
    assert_eq!(deactivate(&once, 12), Ok(once));
    assert_eq!(deactivate(&delegated(100, 1000, 5), 9), Ok(delegated(100, 1000, 5)));
}

#[test]
fn deactivate_needs_a_delegation() {
    assert_eq!(
        deactivate(&StakeAccountState::Initialized(meta(100)), 9),
        Err(StakeError::InvalidStateForOperation)
    );
    assert_eq!(
        deactivate(&StakeAccountState::Uninitialized, 9),
        Err(StakeError::InvalidStateForOperation)
    );
}

#[test]
fn stake_deactivate_keeps_a_scheduled_epoch() {
    let mut s = stake(10, NOT_DEACTIVATING);
    s.deactivate(4);
    assert_eq!(s, stake(10, 4));
    s.deactivate(6);
    assert_eq!(s, stake(10, 4));
}

#[test]
fn authorize_replaces_one_key() {
    let state = StakeAccountState::Initialized(meta(100));
    let mut expected = meta(100);
    expected.authorized.staker = key(40);
    assert_eq!(
        authorize(&state, &key(40), StakeAuthorize::Staker),
        Ok(StakeAccountState::Initialized(expected))
    );
    let mut expected = meta(100);
    expected.authorized.withdrawer = key(41);
    assert_eq!(
        authorize(&state, &key(41), StakeAuthorize::Withdrawer),
        Ok(StakeAccountState::Initialized(expected))
    );
    assert_eq!(
        authorize(&delegated(100, 1000, 5), &key(41), StakeAuthorize::Withdrawer),
        Ok(StakeAccountState::Delegated(expected, stake(1000, 5), StakeFlags { bits: 1 }))
    );
}

#[test]
fn authorize_needs_a_meta() {
    assert_eq!(
        authorize(&StakeAccountState::Uninitialized, &key(40), StakeAuthorize::Staker),
        Err(StakeError::InvalidStateForOperation)
    );
}

#[test]
fn meta_authorize_touches_nothing_else() {
    let mut m = meta(5);
    meta_authorized_authorize(&mut m, &key(60), StakeAuthorize::Staker);
    assert_eq!(m.authorized, Authorized { staker: key(60), withdrawer: key(2) });
    meta_authorized_authorize(&mut m, &key(61), StakeAuthorize::Withdrawer);
    assert_eq!(m.authorized, Authorized { staker: key(60), withdrawer: key(61) });
    assert_eq!(m.rent_exempt_reserve, 5);
    assert_eq!(m.lockup, meta(5).lockup);
}

#[test]
fn delegated_amount_is_what_lies_above_the_reserve() {
    assert_eq!(validate_delegated_amount(150, &meta(100), 1), Ok(50));
    assert_eq!(validate_delegated_amount(150, &meta(100), 50), Ok(50));
    assert_eq!(
        validate_delegated_amount(150, &meta(100), 51),
        Err(StakeError::BelowMinimumDelegation)
    );
    assert_eq!(
        validate_delegated_amount(100, &meta(100), 1),
        Err(StakeError::BelowMinimumDelegation)
    );
    assert_eq!(
        validate_delegated_amount(30, &meta(100), 1),
        Err(StakeError::BelowMinimumDelegation)
    );
    assert_eq!(validate_delegated_amount(30, &meta(100), 0), Ok(0));
    assert_eq!(validate_delegated_amount(u64::MAX, &meta(0), u64::MAX), Ok(u64::MAX));
}

#[test]
fn new_stake_is_not_deactivating() {
    let s = new_stake(50, &key(7), 4, 99);
    assert_eq!(
        s,
        Stake {
            delegation: Delegation {
                voter_pubkey: key(7),
                stake: 50,
                activation_epoch: 4,
                deactivation_epoch: u64::MAX,
                warmup_cooldown_rate_bits: DEFAULT_WARMUP_COOLDOWN_RATE_BITS,
            },
            credits_observed: 99,
        }
    );
}

#[test]
fn delegate_honours_the_injected_minimum() {
    let state = StakeAccountState::Initialized(meta(100));
    let strict = BoundsOracle { minimum_delegation: 60, ..oracle() };
    assert_eq!(delegate(&state, 150, &key(7), 4, &strict), Err(StakeError::BelowMinimumDelegation));
    assert!(delegate(&state, 160, &key(7), 4, &strict).is_ok());
    let lax = BoundsOracle { minimum_delegation: 0, ..oracle() };
    assert_eq!(
        delegate(&state, 20, &key(7), 4, &lax),
        Ok(StakeAccountState::Delegated(meta(100), new_stake(0, &key(7), 4, 11), StakeFlags::empty()))
    );
}

#[test]
fn delegate_needs_an_initialized_or_delegated_account() {
    assert_eq!(
        delegate(&StakeAccountState::Uninitialized, 150, &key(7), 4, &oracle()),
        Err(StakeError::InvalidStateForOperation)
    );
}

#[test]
fn redelegate_rescinds_a_deactivation_of_this_epoch() {
    let state = delegated(100, 1000, 5);
    assert_eq!(
        delegate(&state, 1500, &key(VALIDATOR), 5, &effective(1000)),
        Ok(delegated(100, 1000, NOT_DEACTIVATING))
    );
    assert_eq!(
        delegate(&state, 1500, &key(VALIDATOR), 5, &effective(1)),
        Ok(delegated(100, 1000, NOT_DEACTIVATING))
    );
}

#[test]
fn redelegate_of_an_active_stake_is_refused_otherwise() {
    let state = delegated(100, 1000, 5);
    assert_eq!(
        delegate(&state, 1500, &key(VALIDATOR + 1), 5, &effective(1000)),
        Err(StakeError::InvalidStateForOperation)
    );
    assert_eq!(
        delegate(&state, 1500, &key(VALIDATOR), 6, &effective(1000)),
        Err(StakeError::InvalidStateForOperation)
    );
    assert_eq!(
        delegate(&delegated(100, 1000, NOT_DEACTIVATING), 1500, &key(VALIDATOR), 6, &effective(7)),
        Err(StakeError::InvalidStateForOperation)
    );
}

#[test]
fn redelegate_of_an_inactive_stake_starts_afresh() {
    let state = delegated(100, 1000, 5);
    let expected = Stake {
        delegation: Delegation {
            voter_pubkey: key(70),
            stake: 1400,
            activation_epoch: 8,
            deactivation_epoch: NOT_DEACTIVATING,
            warmup_cooldown_rate_bits: 0x1234,
        },
        credits_observed: 11,
    };
    assert_eq!(
        delegate(&state, 1500, &key(70), 8, &effective(0)),
        Ok(StakeAccountState::Delegated(meta(100), expected, StakeFlags { bits: 1 }))
    );
}

#[test]
fn redelegate_checks_the_amount_first() {
    assert_eq!(
        delegate(&delegated(100, 1000, 5), 100, &key(VALIDATOR), 5, &effective(1000)),
        Err(StakeError::BelowMinimumDelegation)
    );
}

#[test]
fn redelegate_stake_leaves_a_refused_stake_alone() {
    let mut s = stake(1000, 5);
    assert_eq!(
        redelegate_stake(&mut s, 500, &key(70), 5, &effective(3)),
        Err(StakeError::InvalidStateForOperation)
    );
    assert_eq!(s, stake(1000, 5));
    assert_eq!(redelegate_stake(&mut s, 500, &key(VALIDATOR), 5, &effective(3)), Ok(()));
    assert_eq!(s, stake(1000, NOT_DEACTIVATING));
}

#[test]
fn split_needs_a_fresh_destination() {
    let source = delegated(100, 1000, NOT_DEACTIVATING);
    assert_eq!(
        split(&source, &StakeAccountState::Initialized(meta(1)), 400, 1100, &oracle()),
        Err(StakeError::InvalidTarget)
    );
    assert_eq!(
        split(&source, &delegated(1, 1, 1), 400, 1100, &oracle()),
        Err(StakeError::InvalidTarget)
    );
}

#[test]
fn split_cannot_exceed_the_balance() {
    let source = delegated(100, 1000, NOT_DEACTIVATING);
    assert_eq!(
        split(&source, &StakeAccountState::Uninitialized, 1101, 1100, &oracle()),
        Err(StakeError::InsufficientBalance)
    );
    assert_eq!(
        split(&StakeAccountState::Uninitialized, &StakeAccountState::Uninitialized, 1, 0, &oracle()),
        Err(StakeError::InsufficientBalance)
    );
}

#[test]
fn split_into_an_empty_destination() {
    let source = delegated(100, 1000, 6);
    let mut destination_meta = meta(100);
    destination_meta.rent_exempt_reserve = 77;
    assert_eq!(
        split(&source, &StakeAccountState::Uninitialized, 400, 1100, &oracle()),
        Ok((
            delegated(100, 700, 6),
            StakeAccountState::Delegated(destination_meta, stake(300, 6), StakeFlags { bits: 1 }),
            400
        ))
    );
}

#[test]
fn split_of_the_whole_balance_resets_the_source() {
    let source = delegated(100, 1000, NOT_DEACTIVATING);
    let mut destination_meta = meta(100);
    destination_meta.rent_exempt_reserve = 77;
    assert_eq!(
        split(&source, &StakeAccountState::Uninitialized, 1100, 1100, &oracle()),
        Ok((
            StakeAccountState::Uninitialized,
            StakeAccountState::Delegated(
                destination_meta,
                stake(1000, NOT_DEACTIVATING),
                StakeFlags { bits: 1 }
            ),
            1100
        ))
    );
}

#[test]
fn split_below_the_minimum_is_refused() {
    let source = delegated(100, 1000, NOT_DEACTIVATING);
    assert_eq!(
        split(&source, &StakeAccountState::Uninitialized, 100, 1100, &oracle()),
        Err(StakeError::BelowMinimumDelegation)
    );
    assert_eq!(
        split(&source, &StakeAccountState::Uninitialized, 30, 1100, &oracle()),
        Err(StakeError::BelowMinimumDelegation)
    );
    let strict = BoundsOracle { minimum_delegation: 301, ..oracle() };
    assert_eq!(
        split(&source, &StakeAccountState::Uninitialized, 400, 1100, &strict),
        Err(StakeError::BelowMinimumDelegation)
    );
}

#[test]
fn split_cannot_take_more_stake_than_there_is() {
    let source = delegated(10, 100, NOT_DEACTIVATING);
    assert_eq!(
        split(&source, &StakeAccountState::Uninitialized, 500, 1000, &oracle()),
        Err(StakeError::ArithmeticFault)
    );
}

#[test]
fn split_into_a_funded_destination() {
    let source = delegated(100, 1000, NOT_DEACTIVATING);
    let funded =
        BoundsOracle { destination_prefunded: true, reserve_adjustment: 30, ..oracle() };
    let mut destination_meta = meta(100);
    destination_meta.rent_exempt_reserve = 77;
    assert_eq!(
        split(&source, &StakeAccountState::Uninitialized, 400, 1100, &funded),
        Ok((
            delegated(100, 600, NOT_DEACTIVATING),
            StakeAccountState::Delegated(
                destination_meta,
                stake(370, NOT_DEACTIVATING),
                StakeFlags { bits: 1 }
            ),
            400
        ))
    );
}

#[test]
fn split_into_a_funded_destination_keeps_the_minimum_in_the_source() {
    let source = delegated(100, 400, NOT_DEACTIVATING);
    let funded = BoundsOracle { destination_prefunded: true, ..oracle() };
    assert_eq!(
        split(&source, &StakeAccountState::Uninitialized, 400, 1100, &funded),
        Err(StakeError::BelowMinimumDelegation)
    );
    assert_eq!(
        split(&source, &StakeAccountState::Uninitialized, 450, 1100, &funded),
        Err(StakeError::BelowMinimumDelegation)
    );
    assert!(split(&source, &StakeAccountState::Uninitialized, 399, 1100, &funded).is_ok());
}

#[test]
fn split_into_a_funded_destination_needs_stake_after_the_adjustment() {
    let source = delegated(100, 1000, NOT_DEACTIVATING);
    let funded =
        BoundsOracle { destination_prefunded: true, reserve_adjustment: 400, ..oracle() };
    assert_eq!(
        split(&source, &StakeAccountState::Uninitialized, 400, 1100, &funded),
        Err(StakeError::BelowMinimumDelegation)
    );
    let funded =
        BoundsOracle { destination_prefunded: true, reserve_adjustment: u64::MAX, ..oracle() };
    assert_eq!(
        split(&source, &StakeAccountState::Uninitialized, 400, 1100, &funded),
        Err(StakeError::BelowMinimumDelegation)
    );
}

#[test]
fn split_of_an_initialized_account_copies_the_meta() {
    let source = StakeAccountState::Initialized(meta(100));
    let mut destination_meta = meta(100);
    destination_meta.rent_exempt_reserve = 77;
    assert_eq!(
        split(&source, &StakeAccountState::Uninitialized, 40, 150, &oracle()),
        Ok((source, StakeAccountState::Initialized(destination_meta), 40))
    );
    assert_eq!(
        split(&source, &StakeAccountState::Uninitialized, 150, 150, &oracle()),
        Ok((StakeAccountState::Uninitialized, StakeAccountState::Initialized(destination_meta), 150))
    );
}

#[test]
fn split_of_an_uninitialized_account_moves_lamports_only() {
    assert_eq!(
        split(&StakeAccountState::Uninitialized, &StakeAccountState::Uninitialized, 40, 150, &oracle()),
        Ok((StakeAccountState::Uninitialized, StakeAccountState::Uninitialized, 40))
    );
}

#[test]
fn stake_split_moves_stake() {
    let mut s = stake(1000, 6);
    assert_eq!(s.split(300, 250), Ok(stake(250, 6)));
    assert_eq!(s, stake(700, 6));
    assert_eq!(s.split(701, 1), Err(StakeError::ArithmeticFault));
    assert_eq!(s, stake(700, 6));
    assert_eq!(s.split(700, 0), Ok(stake(0, 6)));
    assert_eq!(s, stake(0, 6));
}

#[test]
fn merge_resets_the_source() {
    let destination = StakeAccountState::Initialized(meta(100));
    let source = delegated(55, 1000, 5);
    assert_eq!(
        merge(&destination, &source, 1055, &oracle()),
        Ok((
            StakeAccountState::Delegated(meta(100), stake(4242, 8), StakeFlags::empty()),
            StakeAccountState::Uninitialized,
            1055
        ))
    );
    assert_eq!(
        merge(&source, &destination, 0, &oracle()),
        Ok((
            StakeAccountState::Delegated(meta(55), stake(4242, 8), StakeFlags::empty()),
            StakeAccountState::Uninitialized,
            0
        ))
    );
}

#[test]
fn merge_needs_the_same_authorities() {
    let destination = StakeAccountState::Initialized(meta(100));
    let mut other = meta(100);
    other.authorized.withdrawer = key(99);
    assert_eq!(
        merge(&destination, &StakeAccountState::Initialized(other), 10, &oracle()),
        Err(StakeError::IncompatibleAuthorities)
    );
    let mut other = meta(100);
    other.authorized.staker.bytes[31] = 0;
    assert_eq!(
        merge(&destination, &StakeAccountState::Initialized(other), 10, &oracle()),
        Err(StakeError::IncompatibleAuthorities)
    );
    let mut other = meta(3);
    other.lockup.custodian = key(98);
    assert!(merge(&destination, &StakeAccountState::Initialized(other), 10, &oracle()).is_ok());
}

#[test]
fn merge_needs_two_funded_accounts() {
    let funded = StakeAccountState::Initialized(meta(100));
    assert_eq!(
        merge(&funded, &StakeAccountState::Uninitialized, 10, &oracle()),
        Err(StakeError::InvalidStateForOperation)
    );
    assert_eq!(
        merge(&StakeAccountState::Uninitialized, &funded, 10, &oracle()),
        Err(StakeError::InvalidStateForOperation)
    );
}
