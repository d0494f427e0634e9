//! Message size limits.

use vstd::prelude::*;

verus! {

/// The limit on the length of one encoded message, in bytes, that a
/// connection gets when none is given: one megabyte (1024 * 1024 bytes).
pub fn default_size_limit() -> (limit: u64)
    ensures
        limit == 1024 * 1024,
{
    1024 * 1024
}

} // verus!
