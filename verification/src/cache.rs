//! Cache maintenance encodings for the Cortex-A53 cluster.
//!
//! The set/way maintenance instructions take a single register operand that
//! packs the set index, the way index and the cache level; this module
//! computes that encoding. Issuing the instructions themselves is left to
//! the boot code.

use vstd::prelude::*;

verus! {

// Geometry shared by all Cortex-A53s; level 1 refers to the data cache.
pub const L1_NWAYS: usize = 4;

pub const L1_BIT_POS_OF_WAY: usize = 30;

pub const L2_NWAYS: usize = 16;

pub const L2_BIT_POS_OF_WAY: usize = 28;

pub const BIT_POS_OF_SET: usize = 6;

pub const L1_NSETS: usize = 128;

pub const L2_NSETS: usize = 1024;

/// Level field for set/way-based instructions; there is no L3 cache.
#[derive(Debug, Clone, Copy, PartialEq, Eq, Structural)]
pub enum CacheLevel {
    L1,
    L2,
}

impl CacheLevel {
    /// The value of the level field: the architectural level minus one.
    pub open spec fn spec_value(self) -> usize {
        match self {
            CacheLevel::L1 => 0b00,
            CacheLevel::L2 => 0b01,
        }
    }

    pub fn value(self) -> (r: usize)
        ensures
            r == self.spec_value(),
    {
        match self {
            CacheLevel::L1 => 0b00,
            CacheLevel::L2 => 0b01,
        }
    }
}

/// The operand encoding for a set/way maintenance instruction: the set
/// index shifted to bit 6, the way index shifted to the top bits for the
/// level's associativity, and the level field at bit 1.
pub open spec fn spec_set_way_level(set: usize, way: usize, level: CacheLevel) -> usize {
    let bit_pos_of_way: usize = match level {
        CacheLevel::L1 => L1_BIT_POS_OF_WAY,
        CacheLevel::L2 => L2_BIT_POS_OF_WAY,
    };
    (set << BIT_POS_OF_SET) | (way << bit_pos_of_way) | (level.spec_value() << 1)
}

/// Pack a set index, way index and cache level into the operand of a
/// set/way maintenance instruction; the indices must lie inside the
/// level's geometry.
pub fn translate_set_way_level(set: usize, way: usize, level: CacheLevel) -> (r: usize)
    requires
        (level matches CacheLevel::L1) ==> set < L1_NSETS && way < L1_NWAYS,
        (level matches CacheLevel::L2) ==> set < L2_NSETS && way < L2_NWAYS,
    ensures
        r == spec_set_way_level(set, way, level),
{
    let bit_pos_of_way: usize = match level {
        CacheLevel::L1 => L1_BIT_POS_OF_WAY,
        CacheLevel::L2 => L2_BIT_POS_OF_WAY,
    };
    (set << BIT_POS_OF_SET) | (way << bit_pos_of_way) | (level.value() << 1u32)
}

} // verus!
