//! The fixed binary record of a stake account.
//!
//! A record is `STAKE_STATE_SIZE` bytes long. It starts with a little-endian
//! `u32` discriminant (0 uninitialized, 1 initialized, 2 delegated), followed by
//! the fields of the state in order, integers little-endian and addresses as
//! their 32 bytes. The bytes behind the last field of a state carry no meaning:
//! reading ignores them and writing leaves them as they are.

use vstd::prelude::*;
use crate::bytes::{
    lemma_i64_bits_round_trip, lemma_u32_le_bytes_round_trip, lemma_u32_le_round_trip,
    lemma_u64_le_bytes_round_trip, lemma_u64_le_round_trip, read_key, read_u32, read_u64, spliced,
    u32_from_le, u32_to_le, u64_from_le, u64_to_le, write_key, write_u32, write_u64,
};
use crate::error::StakeError;
use crate::state::{
    Authorized, AuthorizedView, Delegation, DelegationView, Lockup, LockupView, Meta, MetaView,
    Stake, StakeAccountState, StakeFlags, StakeView, StateView, PUBKEY_BYTES,
};

verus! {

/// Length of every stake account record.
pub const STAKE_STATE_SIZE: usize = 200;

/// Discriminant of an uninitialized record.
pub const TAG_UNINITIALIZED: u32 = 0;

/// Discriminant of an initialized record.
pub const TAG_INITIALIZED: u32 = 1;

/// Discriminant of a delegated record.
pub const TAG_DELEGATED: u32 = 2;

/// Length of the discriminant.
pub const TAG_BYTES: usize = 4;

/// Length of the fields that an initialized or delegated record starts with.
pub const META_BYTES: usize = 120;

/// Length of the delegation fields of a delegated record.
pub const STAKE_BYTES: usize = 72;

impl AuthorizedView {
    /// Both keys have the length of an address.
    pub open spec fn wf(self) -> bool {
        self.staker.len() == PUBKEY_BYTES && self.withdrawer.len() == PUBKEY_BYTES
    }
}

impl MetaView {
    /// Every key in it has the length of an address.
    pub open spec fn wf(self) -> bool {
        self.authorized.wf() && self.lockup.custodian.len() == PUBKEY_BYTES
    }

    /// The fields in record order.
    pub open spec fn bytes(self) -> Seq<u8> {
        u64_to_le(self.rent_exempt_reserve) + self.authorized.staker + self.authorized.withdrawer
            + u64_to_le(self.lockup.unix_timestamp as u64) + u64_to_le(self.lockup.epoch)
            + self.lockup.custodian
    }
}

impl StakeView {
    /// The validator's key has the length of an address.
    pub open spec fn wf(self) -> bool {
        self.delegation.voter_pubkey.len() == PUBKEY_BYTES
    }

    /// The fields in record order.
    pub open spec fn bytes(self) -> Seq<u8> {
        self.delegation.voter_pubkey + u64_to_le(self.delegation.stake) + u64_to_le(
            self.delegation.activation_epoch,
        ) + u64_to_le(self.delegation.deactivation_epoch) + u64_to_le(
            self.delegation.warmup_cooldown_rate_bits,
        ) + u64_to_le(self.credits_observed)
    }
}

impl StateView {
    /// Every key in it has the length of an address. This holds of the view of
    /// every `StakeAccountState`.
    pub open spec fn wf(self) -> bool {
        match self {
            StateView::Uninitialized => true,
            StateView::Initialized(meta) => meta.wf(),
            StateView::Delegated(meta, stake, _) => meta.wf() && stake.wf(),
        }
    }

    /// The discriminant and the fields in record order: the bytes that writing
    /// this state puts at the start of a record.
    pub open spec fn bytes(self) -> Seq<u8> {
        match self {
            StateView::Uninitialized => u32_to_le(TAG_UNINITIALIZED),
            StateView::Initialized(meta) => u32_to_le(TAG_INITIALIZED) + meta.bytes(),
            StateView::Delegated(meta, stake, flags) => u32_to_le(TAG_DELEGATED) + meta.bytes()
                + stake.bytes() + seq![flags.bits],
        }
    }
}

/// The record `buffer` after `state` was written into it.
pub open spec fn stored(state: StateView, buffer: Seq<u8>) -> Seq<u8> {
    spliced(buffer, 0, state.bytes())
}

/// The meta fields that start at `at`.
pub open spec fn meta_at(b: Seq<u8>, at: int) -> MetaView {
    MetaView {
        rent_exempt_reserve: u64_from_le(b.subrange(at, at + 8)),
        authorized: AuthorizedView {
            staker: b.subrange(at + 8, at + 40),
            withdrawer: b.subrange(at + 40, at + 72),
        },
        lockup: LockupView {
            unix_timestamp: u64_from_le(b.subrange(at + 72, at + 80)) as i64,
            epoch: u64_from_le(b.subrange(at + 80, at + 88)),
            custodian: b.subrange(at + 88, at + 120),
        },
    }
}

/// The delegation fields that start at `at`.
pub open spec fn stake_at(b: Seq<u8>, at: int) -> StakeView {
    StakeView {
        delegation: DelegationView {
            voter_pubkey: b.subrange(at, at + 32),
            stake: u64_from_le(b.subrange(at + 32, at + 40)),
            activation_epoch: u64_from_le(b.subrange(at + 40, at + 48)),
            deactivation_epoch: u64_from_le(b.subrange(at + 48, at + 56)),
            warmup_cooldown_rate_bits: u64_from_le(b.subrange(at + 56, at + 64)),
        },
        credits_observed: u64_from_le(b.subrange(at + 64, at + 72)),
    }
}

/// The state that a record holds, if it is a record: `None` for a buffer of
/// another length than `STAKE_STATE_SIZE` and for an unknown discriminant.
pub open spec fn decoded(b: Seq<u8>) -> Option<StateView> {
    if b.len() != STAKE_STATE_SIZE {
        None
    } else {
        let tag = u32_from_le(b.subrange(0, 4));
        if tag == TAG_UNINITIALIZED {
            Some(StateView::Uninitialized)
        } else if tag == TAG_INITIALIZED {
            Some(StateView::Initialized(meta_at(b, 4)))
        } else if tag == TAG_DELEGATED {
            Some(StateView::Delegated(meta_at(b, 4), stake_at(b, 124), StakeFlags { bits: b[196] }))
        } else {
            None
        }
    }
}

/// The view of a meta holds keys of the right length.
pub proof fn lemma_meta_view_wf(meta: Meta)
    ensures
        meta@.wf(),
        meta@.bytes().len() == META_BYTES,
{
}

/// The view of a stake holds a key of the right length.
pub proof fn lemma_stake_view_wf(stake: Stake)
    ensures
        stake@.wf(),
        stake@.bytes().len() == STAKE_BYTES,
{
}

/// The view of a state holds keys of the right length, and its bytes fit into
/// a record.
pub proof fn lemma_state_view_wf(state: StakeAccountState)
    ensures
        state@.wf(),
        state@.bytes().len() <= STAKE_STATE_SIZE,
{
    match state {
        StakeAccountState::Uninitialized => {},
        StakeAccountState::Initialized(meta) => {
            lemma_meta_view_wf(meta);
        },
        StakeAccountState::Delegated(meta, stake, _) => {
            lemma_meta_view_wf(meta);
            lemma_stake_view_wf(stake);
        },
    }
}

/// Where the bytes of a meta stand in a buffer, reading there gives the meta.
pub proof fn lemma_meta_at_bytes(b: Seq<u8>, at: int, meta: MetaView)
    requires
        meta.wf(),
        0 <= at,
        at + META_BYTES <= b.len(),
        b.subrange(at, at + META_BYTES) == meta.bytes(),
    ensures
        meta_at(b, at) == meta,
{
    let m = meta.bytes();
    assert(b.subrange(at, at + 8) =~= m.subrange(0, 8));
    assert(m.subrange(0, 8) =~= u64_to_le(meta.rent_exempt_reserve));
    assert(b.subrange(at + 8, at + 40) =~= m.subrange(8, 40));
    assert(m.subrange(8, 40) =~= meta.authorized.staker);
    assert(b.subrange(at + 40, at + 72) =~= m.subrange(40, 72));
    assert(m.subrange(40, 72) =~= meta.authorized.withdrawer);
    assert(b.subrange(at + 72, at + 80) =~= m.subrange(72, 80));
    assert(m.subrange(72, 80) =~= u64_to_le(meta.lockup.unix_timestamp as u64));
    assert(b.subrange(at + 80, at + 88) =~= m.subrange(80, 88));
    assert(m.subrange(80, 88) =~= u64_to_le(meta.lockup.epoch));
    assert(b.subrange(at + 88, at + 120) =~= m.subrange(88, 120));
    assert(m.subrange(88, 120) =~= meta.lockup.custodian);
    lemma_u64_le_round_trip(meta.rent_exempt_reserve);
    lemma_u64_le_round_trip(meta.lockup.unix_timestamp as u64);
    lemma_u64_le_round_trip(meta.lockup.epoch);
    lemma_i64_bits_round_trip(meta.lockup.unix_timestamp, 0);
}

/// Where the bytes of a stake stand in a buffer, reading there gives the stake.
pub proof fn lemma_stake_at_bytes(b: Seq<u8>, at: int, stake: StakeView)
    requires
        stake.wf(),
        0 <= at,
        at + STAKE_BYTES <= b.len(),
        b.subrange(at, at + STAKE_BYTES) == stake.bytes(),
    ensures
        stake_at(b, at) == stake,
{
    let m = stake.bytes();
    let d = stake.delegation;
    assert(b.subrange(at, at + 32) =~= m.subrange(0, 32));
    assert(m.subrange(0, 32) =~= d.voter_pubkey);
    assert(b.subrange(at + 32, at + 40) =~= m.subrange(32, 40));
    assert(m.subrange(32, 40) =~= u64_to_le(d.stake));
    assert(b.subrange(at + 40, at + 48) =~= m.subrange(40, 48));
    assert(m.subrange(40, 48) =~= u64_to_le(d.activation_epoch));
    assert(b.subrange(at + 48, at + 56) =~= m.subrange(48, 56));
    assert(m.subrange(48, 56) =~= u64_to_le(d.deactivation_epoch));
    assert(b.subrange(at + 56, at + 64) =~= m.subrange(56, 64));
    assert(m.subrange(56, 64) =~= u64_to_le(d.warmup_cooldown_rate_bits));
    assert(b.subrange(at + 64, at + 72) =~= m.subrange(64, 72));
    assert(m.subrange(64, 72) =~= u64_to_le(stake.credits_observed));
    lemma_u64_le_round_trip(d.stake);
    lemma_u64_le_round_trip(d.activation_epoch);
    lemma_u64_le_round_trip(d.deactivation_epoch);
    lemma_u64_le_round_trip(d.warmup_cooldown_rate_bits);
    lemma_u64_le_round_trip(stake.credits_observed);
}

/// Reading a meta and writing its bytes out gives the bytes that were read.
pub proof fn lemma_meta_bytes_at(b: Seq<u8>, at: int)
    requires
        0 <= at,
        at + META_BYTES <= b.len(),
    ensures
        meta_at(b, at).wf(),
        meta_at(b, at).bytes() == b.subrange(at, at + META_BYTES),
{
    let meta = meta_at(b, at);
    lemma_u64_le_bytes_round_trip(b.subrange(at, at + 8));
    lemma_u64_le_bytes_round_trip(b.subrange(at + 72, at + 80));
    lemma_u64_le_bytes_round_trip(b.subrange(at + 80, at + 88));
    lemma_i64_bits_round_trip(0, u64_from_le(b.subrange(at + 72, at + 80)));
    assert(meta.bytes() =~= b.subrange(at, at + 8) + b.subrange(at + 8, at + 40) + b.subrange(
        at + 40,
        at + 72,
    ) + b.subrange(at + 72, at + 80) + b.subrange(at + 80, at + 88) + b.subrange(
        at + 88,
        at + 120,
    ));
    assert(meta.bytes() =~= b.subrange(at, at + META_BYTES));
}

/// Reading a stake and writing its bytes out gives the bytes that were read.
pub proof fn lemma_stake_bytes_at(b: Seq<u8>, at: int)
    requires
        0 <= at,
        at + STAKE_BYTES <= b.len(),
    ensures
        stake_at(b, at).wf(),
        stake_at(b, at).bytes() == b.subrange(at, at + STAKE_BYTES),
{
    let stake = stake_at(b, at);
    lemma_u64_le_bytes_round_trip(b.subrange(at + 32, at + 40));
    lemma_u64_le_bytes_round_trip(b.subrange(at + 40, at + 48));
    lemma_u64_le_bytes_round_trip(b.subrange(at + 48, at + 56));
    lemma_u64_le_bytes_round_trip(b.subrange(at + 56, at + 64));
    lemma_u64_le_bytes_round_trip(b.subrange(at + 64, at + 72));
    assert(stake.bytes() =~= b.subrange(at, at + 32) + b.subrange(at + 32, at + 40) + b.subrange(
        at + 40,
        at + 48,
    ) + b.subrange(at + 48, at + 56) + b.subrange(at + 56, at + 64) + b.subrange(
        at + 64,
        at + 72,
    ));
    assert(stake.bytes() =~= b.subrange(at, at + STAKE_BYTES));
}

/// A record holds the state that was last written into it, whatever it held
/// before.
pub proof fn lemma_decoded_stored(state: StateView, buffer: Seq<u8>)
    requires
        state.wf(),
        buffer.len() == STAKE_STATE_SIZE,
    ensures
        stored(state, buffer).len() == STAKE_STATE_SIZE,
        decoded(stored(state, buffer)) == Some(state),
{
    let r = stored(state, buffer);
    match state {
        StateView::Uninitialized => {
            lemma_u32_le_round_trip(TAG_UNINITIALIZED);
            assert(r.subrange(0, 4) =~= u32_to_le(TAG_UNINITIALIZED));
        },
        StateView::Initialized(meta) => {
            lemma_u32_le_round_trip(TAG_INITIALIZED);
            assert(r.subrange(0, 4) =~= u32_to_le(TAG_INITIALIZED));
            assert(r.subrange(4, 124) =~= meta.bytes());
            lemma_meta_at_bytes(r, 4, meta);
        },
        StateView::Delegated(meta, stake, flags) => {
            lemma_u32_le_round_trip(TAG_DELEGATED);
            assert(r.subrange(0, 4) =~= u32_to_le(TAG_DELEGATED));
            assert(r.subrange(4, 124) =~= meta.bytes());
            assert(r.subrange(124, 196) =~= stake.bytes());
            lemma_meta_at_bytes(r, 4, meta);
            lemma_stake_at_bytes(r, 124, stake);
            assert(r[196] == flags.bits);
        },
    }
}

/// Writing into a record the state that it holds changes nothing.
pub proof fn lemma_stored_decoded(buffer: Seq<u8>, state: StateView)
    requires
        decoded(buffer) == Some(state),
    ensures
        state.wf(),
        stored(state, buffer) == buffer,
{
    lemma_u32_le_bytes_round_trip(buffer.subrange(0, 4));
    match state {
        StateView::Uninitialized => {
            assert(stored(state, buffer) =~= buffer);
        },
        StateView::Initialized(meta) => {
            lemma_meta_bytes_at(buffer, 4);
            assert(state.bytes() =~= buffer.subrange(0, 4) + buffer.subrange(4, 124));
            assert(stored(state, buffer) =~= buffer);
        },
        StateView::Delegated(meta, stake, flags) => {
            lemma_meta_bytes_at(buffer, 4);
            lemma_stake_bytes_at(buffer, 124);
            assert(state.bytes() =~= buffer.subrange(0, 4) + buffer.subrange(4, 124)
                + buffer.subrange(124, 196) + seq![buffer[196]]);
            assert(stored(state, buffer) =~= buffer);
        },
    }
}

fn read_meta(data: &[u8], at: usize) -> (meta: Meta)
    requires
        at + 120 <= data@.len() <= usize::MAX,
    ensures
        meta@ == meta_at(data@, at as int),
{
    let rent_exempt_reserve: u64 = read_u64(data, at);
    let staker = read_key(data, at + 8);
    let withdrawer = read_key(data, at + 40);
    let timestamp_bits: u64 = read_u64(data, at + 72);
    let epoch: u64 = read_u64(data, at + 80);
    let custodian = read_key(data, at + 88);
    Meta {
        rent_exempt_reserve,
        authorized: Authorized { staker, withdrawer },
        lockup: Lockup {
            unix_timestamp: #[verifier::truncate]
            (timestamp_bits as i64),
            epoch,
            custodian,
        },
    }
}

fn read_stake(data: &[u8], at: usize) -> (stake: Stake)
    requires
        at + 72 <= data@.len() <= usize::MAX,
    ensures
        stake@ == stake_at(data@, at as int),
{
    let voter_pubkey = read_key(data, at);
    let stake: u64 = read_u64(data, at + 32);
    let activation_epoch: u64 = read_u64(data, at + 40);
    let deactivation_epoch: u64 = read_u64(data, at + 48);
    let warmup_cooldown_rate_bits: u64 = read_u64(data, at + 56);
    let credits_observed: u64 = read_u64(data, at + 64);
    Stake {
        delegation: Delegation {
            voter_pubkey,
            stake,
            activation_epoch,
            deactivation_epoch,
            warmup_cooldown_rate_bits,
        },
        credits_observed,
    }
}

/// Reads the state that a record holds. Fails with `MalformedRecord` when the
/// buffer is not `STAKE_STATE_SIZE` bytes long or its discriminant is unknown.
pub fn stake_from_slice_unchecked(data: &[u8]) -> (r: Result<StakeAccountState, StakeError>)
    ensures
        match r {
            Ok(state) => decoded(data@) == Some(state@),
            Err(e) => e == StakeError::MalformedRecord && decoded(data@).is_none(),
        },
{
    if data.len() != STAKE_STATE_SIZE {
        return Err(StakeError::MalformedRecord);
    }
    let tag: u32 = read_u32(data, 0);
    if tag == TAG_UNINITIALIZED {
        Ok(StakeAccountState::Uninitialized)
    } else if tag == TAG_INITIALIZED {
        Ok(StakeAccountState::Initialized(read_meta(data, 4)))
    } else if tag == TAG_DELEGATED {
        let meta = read_meta(data, 4);
        let stake = read_stake(data, 124);
        let flags = StakeFlags { bits: data[196] };
        Ok(StakeAccountState::Delegated(meta, stake, flags))
    } else {
        Err(StakeError::MalformedRecord)
    }
}

fn write_meta(data: &mut [u8], at: usize, meta: &Meta)
    requires
        at + 120 <= old(data)@.len() <= usize::MAX,
    ensures
        final(data)@ == spliced(old(data)@, at as int, meta@.bytes()),
{
    write_u64(data, at, meta.rent_exempt_reserve);
    write_key(data, at + 8, &meta.authorized.staker);
    write_key(data, at + 40, &meta.authorized.withdrawer);
    write_u64(data, at + 72, #[verifier::truncate] (meta.lockup.unix_timestamp as u64));
    write_u64(data, at + 80, meta.lockup.epoch);
    write_key(data, at + 88, &meta.lockup.custodian);
    assert(data@ =~= spliced(old(data)@, at as int, meta@.bytes()));
}

fn write_stake(data: &mut [u8], at: usize, stake: &Stake)
    requires
        at + 72 <= old(data)@.len() <= usize::MAX,
    ensures
        final(data)@ == spliced(old(data)@, at as int, stake@.bytes()),
{
    write_key(data, at, &stake.delegation.voter_pubkey);
    write_u64(data, at + 32, stake.delegation.stake);
    write_u64(data, at + 40, stake.delegation.activation_epoch);
    write_u64(data, at + 48, stake.delegation.deactivation_epoch);
    write_u64(data, at + 56, stake.delegation.warmup_cooldown_rate_bits);
    write_u64(data, at + 64, stake.credits_observed);
    assert(data@ =~= spliced(old(data)@, at as int, stake@.bytes()));
}

/// Writes `state` into a record: the discriminant and the fields of the state.
/// The bytes behind them stay as they are.
pub fn stake_to_slice_unchecked(data: &mut [u8], state: &StakeAccountState)
    requires
        old(data)@.len() == STAKE_STATE_SIZE,
    ensures
        final(data)@ == stored(state@, old(data)@),
{
    match state {
        StakeAccountState::Uninitialized => {
            write_u32(data, 0, TAG_UNINITIALIZED);
        },
        StakeAccountState::Initialized(meta) => {
            write_u32(data, 0, TAG_INITIALIZED);
            write_meta(data, 4, meta);
        },
        StakeAccountState::Delegated(meta, stake, flags) => {
            write_u32(data, 0, TAG_DELEGATED);
            write_meta(data, 4, meta);
            write_stake(data, 124, stake);
            data[196] = flags.bits;
        },
    }
    assert(data@ =~= stored(state@, old(data)@));
}

/// Resets a record to the uninitialized state by zeroing its discriminant. The
/// rest of the record stays as it is.
pub fn write_uninitialized_stake_to_slice(data: &mut [u8])
    requires
        old(data)@.len() == STAKE_STATE_SIZE,
    ensures
        final(data)@ == stored(StateView::Uninitialized, old(data)@),
        final(data)@ == seq![0u8, 0u8, 0u8, 0u8] + old(data)@.skip(4),
{
    write_u32(data, 0, TAG_UNINITIALIZED);
    proof {
        let z: u32 = 0;
        assert((z & 0xff) as u8 == 0 && ((z >> 8) & 0xff) as u8 == 0 && ((z >> 16) & 0xff) as u8
            == 0 && ((z >> 24) & 0xff) as u8 == 0) by (bit_vector)
            requires
                z == 0,
        ;
        assert(data@ =~= seq![0u8, 0u8, 0u8, 0u8] + old(data)@.skip(4));
    }
}

} // verus!
