//! Resource kinds, the billing-policy trait, and a resource instance bound to
//! its policy.

use vstd::prelude::*;

pub mod cpu;
pub mod memory;
pub mod storage;
pub mod factory;

verus! {

/// The kinds of resource that can be billed.
#[derive(Clone, Copy, Debug, PartialEq, Eq, Structural, Hash)]
pub enum ResourceType {
    CPU,
    Memory,
    Storage,
}

/// Cost of a CPU used for `usage_time` seconds.
pub open spec fn cpu_cost(usage_time: int) -> int {
    if usage_time > 2 {
        50 + (usage_time - 2) * 10
    } else {
        50
    }
}

/// Cost of `capacity` megabytes of memory used for `usage_time` seconds.
/// The surcharge is keyed on the capacity, not on the time.
pub open spec fn memory_cost(capacity: int, usage_time: int) -> int {
    if capacity > 1024 {
        30 + usage_time * (capacity - 1024) * 2
    } else {
        30
    }
}

/// Cost of `capacity` gigabytes of storage used for `usage_time` seconds:
/// the surcharge is one and a half times the excess, rounded down.
pub open spec fn storage_cost(capacity: int, usage_time: int) -> int {
    if usage_time > 3 {
        20 + ((usage_time - 3) * capacity * 3) / 2
    } else {
        20
    }
}

/// Penalty for storage held for `usage_time` seconds.
pub open spec fn storage_penalty(usage_time: int) -> int {
    if usage_time > 12 {
        1
    } else {
        0
    }
}

/// What the standard policy of `kind` charges.
pub open spec fn standard_cost(kind: ResourceType, capacity: int, usage_time: int) -> int {
    match kind {
        ResourceType::CPU => cpu_cost(usage_time),
        ResourceType::Memory => memory_cost(capacity, usage_time),
        ResourceType::Storage => storage_cost(capacity, usage_time),
    }
}

/// The penalty that the standard policy of `kind` adds.
pub open spec fn standard_penalty(kind: ResourceType, usage_time: int) -> int {
    match kind {
        ResourceType::Storage => storage_penalty(usage_time),
        _ => 0,
    }
}

/// Whether an amount can be held in the `i32` that the engine reports.
pub open spec fn billable(amount: int) -> bool {
    0 <= amount <= i32::MAX
}

/// A billing policy: what a resource costs for a usage time, and the penalty
/// that comes on top.
pub trait ResourceCost: Send + Sync {
    /// The cost, as a mathematical integer.
    spec fn spec_cost(&self, usage_time: int) -> int;

    /// The penalty, as a mathematical integer.
    spec fn spec_penalty(&self, usage_time: int) -> int;

    /// Whether cost and penalty for `usage_time` can both be reported.
    fn within_limits(&self, usage_time: i32) -> (ok: bool)
        requires
            0 <= usage_time,
        ensures
            ok == (billable(self.spec_cost(usage_time as int)) && billable(
                self.spec_penalty(usage_time as int),
            )),
    ;

    fn cost(&self, usage_time: i32) -> (cost: i32)
        requires
            0 <= usage_time,
            billable(self.spec_cost(usage_time as int)),
        ensures
            cost == self.spec_cost(usage_time as int),
    ;

    fn penalty(&self, usage_time: i32) -> (penalty: i32)
        requires
            0 <= usage_time,
            billable(self.spec_penalty(usage_time as int)),
        ensures
            penalty == self.spec_penalty(usage_time as int),
    ;
}

/// One resource: its kind and capacity, bound to the policy that bills it.
/// Nothing of it changes after construction.
pub struct Resource {
    resource_type: ResourceType,
    capacity: u32,
    resource_cost: Box<dyn ResourceCost>,
}

impl Resource {
    pub closed spec fn kind(&self) -> ResourceType {
        self.resource_type
    }

    /// The capacity, in the unit of the kind: cores, megabytes or gigabytes.
    pub closed spec fn size(&self) -> u32 {
        self.capacity
    }

    pub closed spec fn spec_cost(&self, usage_time: int) -> int {
        self.resource_cost.spec_cost(usage_time)
    }

    pub closed spec fn spec_penalty(&self, usage_time: int) -> int {
        self.resource_cost.spec_penalty(usage_time)
    }

    /// Whether the resource bills as the standard policy of its kind does.
    pub open spec fn is_standard(&self) -> bool {
        &&& forall|t: int| #[trigger]
            self.spec_cost(t) == standard_cost(self.kind(), self.size() as int, t)
        &&& forall|t: int| #[trigger] self.spec_penalty(t) == standard_penalty(self.kind(), t)
    }

    /// A resource under the standard policy of its kind.
    pub fn new(resource_type: ResourceType, capacity: i32) -> (resource: Self)
        requires
            0 <= capacity,
        ensures
            resource.kind() == resource_type,
            resource.size() == capacity,
            resource.is_standard(),
    {
        let size: u32 = capacity as u32;
        match resource_type {
            ResourceType::CPU => Self::with_cpu(resource_type, size),
            ResourceType::Memory => Self::with_memory(resource_type, size),
            ResourceType::Storage => Self::with_storage(resource_type, size),
        }
    }

    /// A resource filed under `resource_type` and billed as a CPU.
    pub fn with_cpu(resource_type: ResourceType, capacity: u32) -> (resource: Self)
        ensures
            resource.kind() == resource_type,
            resource.size() == capacity,
            forall|t: int| #[trigger] resource.spec_cost(t) == cpu_cost(t),
            forall|t: int| #[trigger] resource.spec_penalty(t) == 0,
    {
        Resource { resource_type, capacity, resource_cost: Box::new(cpu::Cpu) }
    }

    /// A resource filed under `resource_type` and billed as memory.
    pub fn with_memory(resource_type: ResourceType, capacity: u32) -> (resource: Self)
        ensures
            resource.kind() == resource_type,
            resource.size() == capacity,
            forall|t: int| #[trigger] resource.spec_cost(t) == memory_cost(capacity as int, t),
            forall|t: int| #[trigger] resource.spec_penalty(t) == 0,
    {
        Resource { resource_type, capacity, resource_cost: Box::new(memory::Memory::new(capacity)) }
    }

    /// A resource filed under `resource_type` and billed as storage.
    pub fn with_storage(resource_type: ResourceType, capacity: u32) -> (resource: Self)
        ensures
            resource.kind() == resource_type,
            resource.size() == capacity,
            forall|t: int| #[trigger] resource.spec_cost(t) == storage_cost(capacity as int, t),
            forall|t: int| #[trigger] resource.spec_penalty(t) == storage_penalty(t),
    {
        Resource {
            resource_type,
            capacity,
            resource_cost: Box::new(storage::Storage::new(capacity)),
        }
    }

    pub fn resource_type(&self) -> (kind: ResourceType)
        ensures
            kind == self.kind(),
    {
        self.resource_type
    }

    pub fn capacity(&self) -> (capacity: u32)
        ensures
            capacity == self.size(),
    {
        self.capacity
    }

    /// Whether cost and penalty for `usage_time` can both be reported.
    pub fn within_limits(&self, usage_time: i32) -> (ok: bool)
        requires
            0 <= usage_time,
        ensures
            ok == (billable(self.spec_cost(usage_time as int)) && billable(
                self.spec_penalty(usage_time as int),
            )),
    {
        self.resource_cost.within_limits(usage_time)
    }

    pub fn compute_cost(&self, usage_time: i32) -> (cost: i32)
        requires
            0 <= usage_time,
            billable(self.spec_cost(usage_time as int)),
        ensures
            cost == self.spec_cost(usage_time as int),
    {
        self.resource_cost.cost(usage_time)
    }

    pub fn compute_penalty(&self, usage_time: i32) -> (penalty: i32)
        requires
            0 <= usage_time,
            billable(self.spec_penalty(usage_time as int)),
        ensures
            penalty == self.spec_penalty(usage_time as int),
    {
        self.resource_cost.penalty(usage_time)
    }
}

} // verus!
