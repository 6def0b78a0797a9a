//! An allocation: one resource used for a length of time.

use vstd::prelude::*;
use super::error::AccountingError;
use super::resource::billable;
use super::resource::Resource;
use super::resource::ResourceType;
use super::resource::factory::ResourceFactory;

verus! {

/// What an allocation is, as plain values: the resource, how long it was
/// used, and what that comes to.
pub struct AllocationView {
    pub kind: ResourceType,
    pub capacity: int,
    pub usage_time: int,
    pub cost: int,
    pub penalty: int,
}

/// Whether cost and penalty of an allocation can both be reported.
pub open spec fn reportable(allocation: AllocationView) -> bool {
    &&& 0 <= allocation.usage_time
    &&& billable(allocation.cost)
    &&& billable(allocation.penalty)
}

/// What using `resource` for `usage_time` seconds comes to.
pub open spec fn allocation_of(resource: Resource, usage_time: int) -> AllocationView {
    AllocationView {
        kind: resource.kind(),
        capacity: resource.size() as int,
        usage_time,
        cost: resource.spec_cost(usage_time),
        penalty: resource.spec_penalty(usage_time),
    }
}

/// One resource used for `usage_time` seconds. Nothing of it changes after
/// construction, and its cost and penalty can always be reported.
pub struct Allocation {
    resource: Resource,
    usage_time: i32,
}

impl View for Allocation {
    type V = AllocationView;

    closed spec fn view(&self) -> AllocationView {
        allocation_of(self.resource, self.usage_time as int)
    }
}

impl Allocation {
    #[verifier::type_invariant]
    spec fn in_range(self) -> bool {
        reportable(self@)
    }

    pub fn new(resource: Resource, usage_time: i32) -> (allocation: Self)
        requires
            reportable(allocation_of(resource, usage_time as int)),
        ensures
            allocation@ == allocation_of(resource, usage_time as int),
    {
        Allocation { resource, usage_time }
    }

    pub fn usage_time(&self) -> (seconds: i32)
        ensures
            seconds == self@.usage_time,
    {
        self.usage_time
    }

    pub fn compute_cost(&self) -> (cost: i32)
        ensures
            cost == self@.cost,
    {
        proof {
            use_type_invariant(self);
        }
        self.resource.compute_cost(self.usage_time)
    }

    pub fn compute_penalty(&self) -> (penalty: i32)
        ensures
            penalty == self@.penalty,
    {
        proof {
            use_type_invariant(self);
        }
        self.resource.compute_penalty(self.usage_time)
    }
}

/// Makes allocations of the kinds that a registry knows.
pub struct AllocationFactory;

impl AllocationFactory {
    /// What `create` makes of a registered kind.
    pub open spec fn spec_create(
        factory: ResourceFactory,
        res: ResourceType,
        capacity: int,
        usage_time: int,
    ) -> AllocationView {
        AllocationView {
            kind: res,
            capacity,
            usage_time,
            cost: factory.spec_cost(res, capacity, usage_time),
            penalty: factory.spec_penalty(res, capacity, usage_time),
        }
    }

    /// Whether `create` has an answer within the machine's limits: a kind
    /// that is not registered is answered with an error, and a registered one
    /// must come to amounts that can be reported.
    pub open spec fn creatable(
        factory: ResourceFactory,
        res: ResourceType,
        capacity: int,
        usage_time: int,
    ) -> bool {
        &&& 0 <= capacity <= i32::MAX
        &&& 0 <= usage_time <= i32::MAX
        &&& factory.registered(res) ==> reportable(
            Self::spec_create(factory, res, capacity, usage_time),
        )
    }

    /// Tells whether `create` may be called with these arguments.
    pub fn can_create(factory: &ResourceFactory, res: ResourceType, capacity: i32, usage_time: i32) -> (ok:
        bool)
        ensures
            ok == Self::creatable(*factory, res, capacity as int, usage_time as int),
    {
        if capacity < 0 || usage_time < 0 {
            return false;
        }
        match factory.create(res, capacity as u32) {
            Ok(resource) => resource.within_limits(usage_time),
            Err(_) => true,
        }
    }

    /// An allocation of `capacity` of a resource of kind `res` for
    /// `usage_time` seconds, billed as `factory` binds the kind.
    pub fn create(factory: &ResourceFactory, res: ResourceType, capacity: i32, usage_time: i32) -> (made:
        Result<Allocation, AccountingError>)
        requires
            Self::creatable(*factory, res, capacity as int, usage_time as int),
        ensures
            match made {
                Ok(allocation) => {
                    &&& factory.registered(res)
                    &&& allocation@ == Self::spec_create(
                        *factory,
                        res,
                        capacity as int,
                        usage_time as int,
                    )
                },
                Err(e) => {
                    &&& !factory.registered(res)
                    &&& e == AccountingError::UnknownResourceKind(res)
                },
            },
    {
        match factory.create(res, capacity as u32) {
            Ok(resource) => Ok(Allocation::new(resource, usage_time)),
            Err(e) => Err(e),
        }
    }
}

} // verus!
