//! The memory policy: a base fee, and a surcharge on every megabyte beyond the
//! quota for each second of use.

use vstd::prelude::*;
use super::ResourceCost;
use super::memory_cost;
use super::billable;

verus! {

/// A size in megabytes.
#[derive(Clone, Copy, Debug, PartialEq, Eq, Structural, Hash)]
pub struct MB(pub u32);

impl MB {
    pub fn new(value: u32) -> (mb: Self)
        ensures
            mb.0 == value,
    {
        MB(value)
    }

    pub fn as_u32(&self) -> (value: u32)
        ensures
            value == self.0,
    {
        self.0
    }

    pub fn add(self, other: Self) -> (sum: Self)
        requires
            self.0 + other.0 <= u32::MAX,
        ensures
            sum.0 == self.0 + other.0,
    {
        MB(self.0 + other.0)
    }

    pub fn sub(self, other: Self) -> (difference: Self)
        requires
            other.0 <= self.0,
        ensures
            difference.0 == self.0 - other.0,
    {
        MB(self.0 - other.0)
    }
}

pub struct Memory {
    mb_size: MB,
}

impl Memory {
    /// Megabytes covered by the base fee.
    pub const BASIC_MEM_QUOTA: u32 = 1024;

    /// Surcharge per second for each megabyte beyond the quota.
    pub const MEM_EXCEED_FACTOR: u32 = 2;

    /// The size this policy bills for, in megabytes.
    pub closed spec fn capacity(&self) -> int {
        self.mb_size.0 as int
    }

    pub fn new(mb_size: u32) -> (memory: Self)
        ensures
            memory.capacity() == mb_size,
    {
        Memory { mb_size: MB::new(mb_size) }
    }
}

impl ResourceCost for Memory {
    open spec fn spec_cost(&self, usage_time: int) -> int {
        memory_cost(self.capacity(), usage_time)
    }

    open spec fn spec_penalty(&self, usage_time: int) -> int {
        0
    }

    fn within_limits(&self, usage_time: i32) -> (ok: bool) {
        if self.mb_size.as_u32() > Self::BASIC_MEM_QUOTA {
            let exceed: MB = self.mb_size.sub(MB::new(Self::BASIC_MEM_QUOTA));
            let time: u64 = usage_time as u64;
            let over: u64 = exceed.as_u32() as u64;
            assert(time * over <= 0x7fff_ffff * 0xffff_ffff) by (nonlinear_arith)
                requires
                    0 <= time <= 0x7fff_ffff,
                    0 <= over <= 0xffff_ffff,
            ;
            assert(0 <= time * over) by (nonlinear_arith)
                requires
                    0 <= time,
                    0 <= over,
            ;
            time * over <= 1_073_741_808
        } else {
            true
        }
    }

    fn cost(&self, usage_time: i32) -> (cost: i32) {
        let mut cost: i32 = 30;
        if self.mb_size.as_u32() > Self::BASIC_MEM_QUOTA {
            let exceed: MB = self.mb_size.sub(MB::new(Self::BASIC_MEM_QUOTA));
            let time: i64 = usage_time as i64;
            let over: i64 = exceed.as_u32() as i64;
            assert(0 <= time * over) by (nonlinear_arith)
                requires
                    0 <= time,
                    0 <= over,
            ;
            let extra: i64 = time * over * 2;
            cost = cost + extra as i32;
        }
        cost
    }

    fn penalty(&self, usage_time: i32) -> (penalty: i32) {
        0
    }
}

} // verus!
