//! The lifetime the contracts keep their storage alive for.
use vstd::prelude::*;

use crate::constants::DAY_IN_LEDGERS;

verus! {

/// The extension applied to a storage entry: once less than a day of the
/// network's maximum lifetime `max_ttl` remains, it is extended back to the
/// maximum. Returns the threshold and the target lifetime.
pub fn ttl_extension(max_ttl: u32) -> (r: (u32, u32))
    requires
        max_ttl >= DAY_IN_LEDGERS,
    ensures
        r.0 == max_ttl - DAY_IN_LEDGERS,
        r.1 == max_ttl,
{
    (max_ttl - DAY_IN_LEDGERS, max_ttl)
}

} // verus!
