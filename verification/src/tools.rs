//! Policy lookups.

use vstd::prelude::*;
use crate::error::StakeError;

verus! {

/// The least amount that may be delegated.
pub const MINIMUM_DELEGATION: u64 = 1;

/// Looks up the minimum delegation. The lookup cannot fail for this policy.
pub fn get_minimum_delegation() -> (r: Result<u64, StakeError>)
    ensures
        r == Ok::<u64, StakeError>(MINIMUM_DELEGATION),
{
    Ok(MINIMUM_DELEGATION)
}

} // verus!
