//! The CPU policy: a base fee, and a surcharge per second beyond the quota.

use vstd::prelude::*;
use super::ResourceCost;
use super::cpu_cost;
use super::billable;

verus! {

pub struct Cpu;

impl Cpu {
    /// Seconds covered by the base fee.
    pub const BASIC_CPU_QUOTA: i32 = 2;

    /// Surcharge per second beyond the quota.
    pub const CPU_EXCEED_FACTOR: i32 = 10;
}

impl ResourceCost for Cpu {
    open spec fn spec_cost(&self, usage_time: int) -> int {
        cpu_cost(usage_time)
    }

    open spec fn spec_penalty(&self, usage_time: int) -> int {
        0
    }

    fn within_limits(&self, usage_time: i32) -> (ok: bool) {
        usage_time <= (i32::MAX - 50) / Self::CPU_EXCEED_FACTOR + Self::BASIC_CPU_QUOTA
    }

    fn cost(&self, usage_time: i32) -> (cost: i32) {
        let mut cost: i32 = 50;
        if usage_time > Self::BASIC_CPU_QUOTA {
            let exceed: i32 = usage_time - Self::BASIC_CPU_QUOTA;
            cost = cost + exceed * Self::CPU_EXCEED_FACTOR;
        }
        cost
    }

    fn penalty(&self, usage_time: i32) -> (penalty: i32) {
        0
    }
}

} // verus!
