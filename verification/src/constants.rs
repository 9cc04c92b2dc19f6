use vstd::prelude::*;

verus! {

/// Stellar targets a ledger close roughly every 5 seconds, which is 17,280 ledgers per day.
pub const LEDGERS_PER_DAY: u32 = 17_280;

/// Default instance storage lifetime for wrap records, expressed in days.
pub const TTL_DAYS: u32 = 365;

/// Default wrap storage lifetime, approximately one year of Stellar ledgers.
#[verifier::nonlinear]
pub const DEFAULT_TTL_LEDGERS: u32 = LEDGERS_PER_DAY * TTL_DAYS;

/// SHA-256 hash length in bytes.
pub const HASH_BYTES: usize = 32;

/// Fixed-size SHA-256 hash value used for off-chain wrap data and WASM hashes.
pub type Sha256Hash = [u8; 32];

/// Default value for counters before any records are created.
pub const DEFAULT_COUNTER_VALUE: u32 = 0;

/// Amount added to a user's wrap count after each successful mint.
pub const USER_COUNT_INCREMENT: u32 = 1;

/// Number of hash bytes shown by the rendering of a `WrapRecord`.
pub const HASH_PREVIEW_BYTES: usize = 4;

/// The registry's timing constants agree with each other: one ledger closes every
/// five seconds, so a day holds `LEDGERS_PER_DAY` ledgers, and the default lifetime
/// of a record is `TTL_DAYS` such days.
pub proof fn lemma_default_ttl_is_ttl_days_of_ledgers()
    ensures
        LEDGERS_PER_DAY * 5 == 24 * 60 * 60,
        DEFAULT_TTL_LEDGERS == LEDGERS_PER_DAY * TTL_DAYS,
{
}

/// Counters start at zero and each mint adds exactly one, and the rendered hash
/// preview never reaches past the end of a hash.
pub proof fn lemma_counter_and_preview_bounds()
    ensures
        DEFAULT_COUNTER_VALUE == 0,
        USER_COUNT_INCREMENT == 1,
        0 < HASH_PREVIEW_BYTES <= HASH_BYTES,
        HASH_PREVIEW_BYTES == 4,
        HASH_BYTES == 32,
{
}

} // verus!
