//! Decoding of snowflake identifiers.
//!
//! A snowflake is a 64-bit unsigned identifier issued by a chat platform. Its
//! high-order 42 bits carry the number of milliseconds since a fixed platform
//! epoch (2015-01-01T00:00:00 UTC) at which the identifier was minted; the
//! low-order 22 bits hold worker, process and sequence fields that this crate
//! does not interpret. The decoder recovers the whole Unix epoch second at
//! which an identifier was minted.

use vstd::arithmetic::div_mod::lemma_div_is_ordered;
use vstd::prelude::*;

verus! {

/// The platform epoch, 2015-01-01T00:00:00 UTC, in milliseconds since the
/// Unix epoch.
pub const SNOWFLAKE_EPOCH_MS: u64 = 1_420_070_400_000;

/// The millisecond offset from the platform epoch held in an identifier's
/// high 42 bits, i.e. the identifier with its low 22 bits discarded.
pub open spec fn millis_since_epoch(id: u64) -> int {
    id as int / 0x40_0000
}

/// The whole Unix epoch second at which an identifier was minted: its
/// millisecond offset, moved to the Unix epoch and truncated to seconds.
pub open spec fn unix_seconds(id: u64) -> int {
    (millis_since_epoch(id) + SNOWFLAKE_EPOCH_MS) / 1000
}

/// Decodes a snowflake identifier to the Unix epoch second at which it was
/// minted. Total: every bit pattern is accepted, and the arithmetic cannot
/// overflow, since the time component occupies at most 42 bits.
#[must_use]
pub fn snowflake_to_timestamp(snowflake: u64) -> (seconds: u64)
    ensures
        seconds == unix_seconds(snowflake),
{
    proof {
        assert(snowflake >> 22u64 == snowflake / 0x40_0000u64) by (bit_vector);
        assert(snowflake >> 22u64 <= 0x3FF_FFFF_FFFFu64) by (bit_vector);
    }
    ((snowflake >> 22) + SNOWFLAKE_EPOCH_MS) / 1000
}

/// Monotonicity: decoding does not reorder identifiers. An issuer that mints
/// identifiers with non-decreasing time components mints numerically ordered
/// identifiers, so the later of two identifiers never decodes to an earlier
/// second.
pub proof fn lemma_timestamp_monotonic(a: u64, b: u64)
    requires
        a <= b,
    ensures
        unix_seconds(a) <= unix_seconds(b),
{
    lemma_div_is_ordered(a as int, b as int, 0x40_0000);
    lemma_div_is_ordered(
        millis_since_epoch(a) + SNOWFLAKE_EPOCH_MS,
        millis_since_epoch(b) + SNOWFLAKE_EPOCH_MS,
        1000,
    );
}

/// The low 22 bits are fully discarded: two identifiers with the same time
/// component decode to the same second, however their worker, process and
/// sequence fields differ.
pub proof fn lemma_low_bits_discarded(a: u64, b: u64)
    requires
        a >> 22u64 == b >> 22u64,
    ensures
        unix_seconds(a) == unix_seconds(b),
{
    assert(a >> 22u64 == a / 0x40_0000u64) by (bit_vector);
    assert(b >> 22u64 == b / 0x40_0000u64) by (bit_vector);
}

/// Referential transparency: the decoded second is a function of the
/// identifier alone, so any two decodings of the same identifier agree.
pub proof fn lemma_decoding_deterministic(id: u64, first: u64, second: u64)
    requires
        first == unix_seconds(id),
        second == unix_seconds(id),
    ensures
        first == second,
{
}

} // verus!
