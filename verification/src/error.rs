//! The failures that an operation on a stake account can report.

use vstd::prelude::*;

verus! {

/// Why an operation was refused. A refused operation changes nothing.
#[derive(Clone, Copy, Debug, PartialEq, Eq, Structural)]
pub enum StakeError {
    /// The record has the wrong size or an unknown discriminant.
    MalformedRecord,
    /// The record is in a state that the operation does not handle.
    InvalidStateForOperation,
    /// The amount asked for exceeds the balance that is available.
    InsufficientBalance,
    /// The amount asked for would cut into the reserve that must stay.
    ReserveViolation,
    /// A stake amount lies below the minimum delegation.
    BelowMinimumDelegation,
    /// Two accounts that should share their authorities do not.
    IncompatibleAuthorities,
    /// The other account of the operation cannot take that role.
    InvalidTarget,
    /// A balance or stake computation left the range of `u64`.
    ArithmeticFault,
}

} // verus!
