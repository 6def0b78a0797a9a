//! The policy registry: which constructor makes the resources of a kind.

use vstd::prelude::*;
use std::collections::HashMap;
use super::Resource;
use super::ResourceType;
use super::standard_cost;
use super::standard_penalty;
use crate::domain::error::AccountingError;

verus! {

/// Makes the policy for a resource of a given capacity. Which constructor a
/// kind is bound to decides how resources of that kind are billed.
#[derive(Clone, Copy, Debug, PartialEq, Eq, Structural)]
pub enum PolicyConstructor {
    Cpu,
    Memory,
    Storage,
}

impl PolicyConstructor {
    /// The kind whose standard policy this constructor makes.
    pub open spec fn policy_kind(&self) -> ResourceType {
        match self {
            PolicyConstructor::Cpu => ResourceType::CPU,
            PolicyConstructor::Memory => ResourceType::Memory,
            PolicyConstructor::Storage => ResourceType::Storage,
        }
    }

    /// What the policy made for `capacity` charges.
    pub open spec fn spec_cost(&self, capacity: int, usage_time: int) -> int {
        standard_cost(self.policy_kind(), capacity, usage_time)
    }

    /// The penalty that the policy made for `capacity` adds.
    pub open spec fn spec_penalty(&self, capacity: int, usage_time: int) -> int {
        standard_penalty(self.policy_kind(), usage_time)
    }

    /// Whether `resource` bills as the policy that this constructor makes
    /// for its capacity.
    pub open spec fn makes(&self, resource: Resource) -> bool {
        &&& forall|t: int| #[trigger]
            resource.spec_cost(t) == self.spec_cost(resource.size() as int, t)
        &&& forall|t: int| #[trigger]
            resource.spec_penalty(t) == self.spec_penalty(resource.size() as int, t)
    }

    /// The constructor of the standard policy of `kind`.
    pub fn standard(kind: ResourceType) -> (constructor: Self)
        ensures
            constructor.policy_kind() == kind,
    {
        match kind {
            ResourceType::CPU => PolicyConstructor::Cpu,
            ResourceType::Memory => PolicyConstructor::Memory,
            ResourceType::Storage => PolicyConstructor::Storage,
        }
    }

    /// A resource filed under `resource_type` and billed by this
    /// constructor's policy.
    pub fn construct(&self, resource_type: ResourceType, capacity: u32) -> (resource: Resource)
        ensures
            resource.kind() == resource_type,
            resource.size() == capacity,
            self.makes(resource),
    {
        match self {
            PolicyConstructor::Cpu => Resource::with_cpu(resource_type, capacity),
            PolicyConstructor::Memory => Resource::with_memory(resource_type, capacity),
            PolicyConstructor::Storage => Resource::with_storage(resource_type, capacity),
        }
    }
}

/// The key under which a kind is filed.
pub open spec fn spec_code(kind: ResourceType) -> u8 {
    match kind {
        ResourceType::CPU => 0,
        ResourceType::Memory => 1,
        ResourceType::Storage => 2,
    }
}

fn code(kind: ResourceType) -> (key: u8)
    ensures
        key == spec_code(kind),
{
    match kind {
        ResourceType::CPU => 0,
        ResourceType::Memory => 1,
        ResourceType::Storage => 2,
    }
}

/// Maps a resource kind to the constructor of its policy. Kinds are added by
/// registering a constructor; a kind without one is unknown.
pub struct ResourceFactory {
    registry: HashMap<u8, PolicyConstructor>,
}

impl ResourceFactory {
    /// Whether a constructor is registered for `kind`.
    pub closed spec fn registered(&self, kind: ResourceType) -> bool {
        self.registry@.contains_key(spec_code(kind))
    }

    /// The constructor registered for `kind`.
    pub closed spec fn constructor(&self, kind: ResourceType) -> PolicyConstructor {
        self.registry@[spec_code(kind)]
    }

    /// What a resource of `kind` and `capacity` made here charges.
    pub open spec fn spec_cost(&self, kind: ResourceType, capacity: int, usage_time: int) -> int {
        self.constructor(kind).spec_cost(capacity, usage_time)
    }

    /// The penalty that a resource of `kind` and `capacity` made here adds.
    pub open spec fn spec_penalty(
        &self,
        kind: ResourceType,
        capacity: int,
        usage_time: int,
    ) -> int {
        self.constructor(kind).spec_penalty(capacity, usage_time)
    }

    /// Whether every kind is registered with its standard policy.
    pub open spec fn is_standard(&self) -> bool {
        forall|kind: ResourceType|
            #![trigger self.registered(kind)]
            #![trigger self.constructor(kind)]
            {
                &&& self.registered(kind)
                &&& forall|c: int, t: int| #[trigger]
                    self.spec_cost(kind, c, t) == standard_cost(kind, c, t)
                &&& forall|c: int, t: int| #[trigger]
                    self.spec_penalty(kind, c, t) == standard_penalty(kind, t)
            }
    }

    /// A registry that knows no kind.
    pub fn new() -> (factory: Self)
        ensures
            forall|kind: ResourceType| !factory.registered(kind),
    {
        ResourceFactory { registry: HashMap::new() }
    }

    /// Binds `resource_type` to `factory`, in place of an earlier constructor
    /// if there was one. The other kinds stay as they are.
    pub fn register(&mut self, resource_type: ResourceType, factory: PolicyConstructor)
        ensures
            final(self).registered(resource_type),
            final(self).constructor(resource_type) == factory,
            forall|kind: ResourceType|
                kind != resource_type ==> final(self).registered(kind) == old(self).registered(
                    kind,
                ),
            forall|kind: ResourceType|
                kind != resource_type ==> final(self).constructor(kind) == old(self).constructor(
                    kind,
                ),
    {
        self.registry.insert(code(resource_type), factory);
    }

    pub fn is_registered(&self, resource_type: ResourceType) -> (known: bool)
        ensures
            known == self.registered(resource_type),
    {
        self.registry.contains_key(&code(resource_type))
    }

    /// Makes a resource of a registered kind; an unregistered kind is an
    /// error, not a panic.
    pub fn create(&self, resource_type: ResourceType, capacity: u32) -> (made: Result<
        Resource,
        AccountingError,
    >)
        ensures
            match made {
                Ok(resource) => {
                    &&& self.registered(resource_type)
                    &&& resource.kind() == resource_type
                    &&& resource.size() == capacity
                    &&& self.constructor(resource_type).makes(resource)
                },
                Err(e) => {
                    &&& !self.registered(resource_type)
                    &&& e == AccountingError::UnknownResourceKind(resource_type)
                },
            },
    {
        match self.registry.get(&code(resource_type)) {
            Some(factory) => Ok(factory.construct(resource_type, capacity)),
            None => Err(AccountingError::UnknownResourceKind(resource_type)),
        }
    }
}

/// The registry that a service starts with unless it is given another.
pub struct ResourceFactoryInstance;

impl ResourceFactoryInstance {
    /// A registry with the three standard policies.
    pub fn get() -> (factory: ResourceFactory)
        ensures
            factory.is_standard(),
    {
        let mut factory = ResourceFactory::new();
        factory.register(ResourceType::CPU, PolicyConstructor::Cpu);
        factory.register(ResourceType::Memory, PolicyConstructor::Memory);
        factory.register(ResourceType::Storage, PolicyConstructor::Storage);
        factory
    }
}

} // verus!
