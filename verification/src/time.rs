//! Block time and the time units of the runtime, counted in blocks.
use vstd::prelude::*;

verus! {

/// A block number.
pub type BlockNumber = u32;

/// Average block time: six seconds.
pub const MILLISECS_PER_BLOCK: u64 = 6000;

/// Length of a slot, in milliseconds: one block.
pub const SLOT_DURATION: u64 = MILLISECS_PER_BLOCK;

/// Blocks in a minute.
pub const MINUTES: BlockNumber = 60_000 / (MILLISECS_PER_BLOCK as BlockNumber);

/// Blocks in an hour.
pub const HOURS: BlockNumber = MINUTES * 60;

/// Blocks in a day.
pub const DAYS: BlockNumber = HOURS * 24;

/// Length of an epoch, in blocks: ten minutes.
pub const EPOCH_DURATION_IN_BLOCKS: u32 = 10 * MINUTES;

/// One in four blocks (on average, not counting collisions) is a primary BABE block.
pub const PRIMARY_PROBABILITY: (u64, u64) = (1, 4);

/// Minimal period between two timestamps, in milliseconds: half a slot.
pub const MINIMUM_PERIOD: u64 = SLOT_DURATION / 2;

/// The time units are counted in blocks of six seconds: a minute is ten blocks, an hour
/// sixty minutes, a day twenty-four hours and an epoch ten minutes; a slot is one block
/// and timestamps may come at most twice a slot.
pub proof fn lemma_time_units()
    ensures
        MINUTES * MILLISECS_PER_BLOCK == 60_000,
        HOURS == 60 * MINUTES,
        DAYS == 24 * HOURS,
        DAYS == 14_400,
        EPOCH_DURATION_IN_BLOCKS == 10 * MINUTES,
        MINIMUM_PERIOD * 2 == SLOT_DURATION,
        SLOT_DURATION == MILLISECS_PER_BLOCK,
        PRIMARY_PROBABILITY.0 * 4 == PRIMARY_PROBABILITY.1,
{
    assert((MILLISECS_PER_BLOCK as BlockNumber) == 6000);
    assert(MINUTES == 10);
}

} // verus!
