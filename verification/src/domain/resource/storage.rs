//! The storage policy: a base fee, a surcharge of one and a half per gigabyte
//! for each second beyond the quota, and a penalty for long use.

use vstd::prelude::*;
use super::ResourceCost;
use super::storage_cost;
use super::storage_penalty;
use super::billable;

verus! {

/// A size in gigabytes.
#[derive(Clone, Copy, Debug, PartialEq, Eq, Structural)]
pub struct GB(pub u32);

impl GB {
    pub fn new(value: u32) -> (gb: Self)
        ensures
            gb.0 == value,
    {
        GB(value)
    }

    pub fn as_u32(&self) -> (value: u32)
        ensures
            value == self.0,
    {
        self.0
    }

    pub fn add(self, other: Self) -> (sum: Self)
        requires
            self.0 + other.0 <= u32::MAX,
        ensures
            sum.0 == self.0 + other.0,
    {
        GB(self.0 + other.0)
    }

    pub fn sub(self, other: Self) -> (difference: Self)
        requires
            other.0 <= self.0,
        ensures
            difference.0 == self.0 - other.0,
    {
        GB(self.0 - other.0)
    }
}

pub struct Storage {
    gb_size: GB,
}

impl Storage {
    /// Seconds covered by the base fee.
    pub const BASIC_STORAGE_QUOTA: i32 = 3;

    /// Seconds of use beyond which the penalty is due.
    pub const STORAGE_PENALTY_THRESHOLD: i32 = 12;

    /// The penalty for long use.
    pub const STORAGE_PENALTY: i32 = 1;

    /// The size this policy bills for, in gigabytes.
    pub closed spec fn capacity(&self) -> int {
        self.gb_size.0 as int
    }

    pub fn new(gb_size: u32) -> (storage: Self)
        ensures
            storage.capacity() == gb_size,
    {
        Storage { gb_size: GB::new(gb_size) }
    }

    /// The gigabyte-seconds beyond the quota; `usage_time` is beyond it.
    fn excess(&self, usage_time: i32) -> (volume: u64)
        requires
            usage_time > Self::BASIC_STORAGE_QUOTA,
        ensures
            volume == (usage_time - 3) * self.capacity(),
            volume <= 0x7fff_ffff * 0xffff_ffff,
    {
        let exceed: u64 = (usage_time - Self::BASIC_STORAGE_QUOTA) as u64;
        let size: u64 = self.gb_size.as_u32() as u64;
        assert(0 <= exceed * size <= 0x7fff_ffff * 0xffff_ffff) by (nonlinear_arith)
            requires
                0 <= exceed <= 0x7fff_ffff,
                0 <= size <= 0xffff_ffff,
        ;
        exceed * size
    }
}

impl ResourceCost for Storage {
    open spec fn spec_cost(&self, usage_time: int) -> int {
        storage_cost(self.capacity(), usage_time)
    }

    open spec fn spec_penalty(&self, usage_time: int) -> int {
        storage_penalty(usage_time)
    }

    fn within_limits(&self, usage_time: i32) -> (ok: bool) {
        if usage_time > Self::BASIC_STORAGE_QUOTA {
            let volume: u64 = self.excess(usage_time);
            volume + volume / 2 <= 2_147_483_627
        } else {
            true
        }
    }

    fn cost(&self, usage_time: i32) -> (cost: i32) {
        let mut cost: i32 = 20;
        if usage_time > Self::BASIC_STORAGE_QUOTA {
            let volume: u64 = self.excess(usage_time);
            let extra: u64 = volume + volume / 2;
            cost = cost + extra as i32;
        }
        cost
    }

    fn penalty(&self, usage_time: i32) -> (penalty: i32) {
        if usage_time > Self::STORAGE_PENALTY_THRESHOLD {
            Self::STORAGE_PENALTY
        } else {
            0
        }
    }
}

} // verus!
