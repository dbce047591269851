//! A model of a validator delegation (stake) account: its fixed binary record,
//! the transitions between its states and the rules that keep balances conserved.

use vstd::prelude::*;

pub mod account;
pub mod bytes;
pub mod codec;
pub mod engine;
pub mod error;
pub mod laws;
pub mod oracle;
pub mod processor;
pub mod state;
pub mod tools;

verus! {

/// The policy minimum that a delegation must reach.
pub open spec fn minimum_delegation() -> u64 {
    tools::MINIMUM_DELEGATION
}

/// Returns the minimum delegation that the transition rules enforce.
pub fn get_minimum_delegation() -> (amount: u64)
    ensures
        amount == minimum_delegation(),
{
    tools::get_minimum_delegation().unwrap()
}

} // verus!
