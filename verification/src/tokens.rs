//! Token approvals: the ledger through which an approval granted by a
//! contract stays valid.
use vstd::prelude::*;

verus! {

/// The approval lifetime, in ledgers, used when none is configured.
pub const DEFAULT_ALLOWANCE_EXPIRATION: u32 = 17_000;

/// The configured approval lifetime, in ledgers: the stored offset, or
/// 17 000 ledgers.
pub fn read_allowance_expiration(stored: Option<u32>) -> (r: u32)
    ensures
        r == match stored {
            Some(v) => v,
            None => DEFAULT_ALLOWANCE_EXPIRATION,
        },
{
    match stored {
        Some(v) => v,
        None => DEFAULT_ALLOWANCE_EXPIRATION,
    }
}

/// The expiration ledger of an approval granted at ledger `sequence`: the
/// configured lifetime after it.
pub fn approval_expiration(stored: Option<u32>, sequence: u32) -> (r: u32)
    requires
        (match stored {
            Some(v) => v,
            None => DEFAULT_ALLOWANCE_EXPIRATION,
        }) + sequence <= u32::MAX,
    ensures
        r == (match stored {
            Some(v) => v,
            None => DEFAULT_ALLOWANCE_EXPIRATION,
        }) + sequence,
{
    read_allowance_expiration(stored) + sequence
}

} // verus!
