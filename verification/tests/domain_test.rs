use resource::domain::allocation::Allocation;
use resource::domain::allocation::AllocationFactory;
use resource::domain::error::AccountingError;
use resource::domain::process::Process;
use resource::domain::resource::cpu::Cpu;
use resource::domain::resource::factory::PolicyConstructor;
use resource::domain::resource::factory::ResourceFactory;
use resource::domain::resource::factory::ResourceFactoryInstance;
use resource::domain::resource::memory::Memory;
use resource::domain::resource::memory::MB;
use resource::domain::resource::storage::Storage;
use resource::domain::resource::storage::GB;
use resource::domain::resource::Resource;
use resource::domain::resource::ResourceCost;
use resource::domain::resource::ResourceType;

#[test]
fn cpu_charges_base_fee_within_quota() {
    assert_eq!(Cpu.cost(0), 50);
    assert_eq!(Cpu.cost(1), 50);
    assert_eq!(Cpu.cost(2), 50);
    assert_eq!(Cpu.penalty(2), 0);
}

#[test]
fn cpu_charges_ten_per_second_beyond_quota() {
    assert_eq!(Cpu.cost(3), 60);
    assert_eq!(Cpu.cost(12), 150);
    assert_eq!(Cpu.penalty(1000), 0);
}

#[test]
fn cpu_limits_are_exact() {
    assert!(Cpu.within_limits(214_748_361));
    assert_eq!(Cpu.cost(214_748_361), 2_147_483_640);
    assert!(!Cpu.within_limits(214_748_362));
    assert!(!Cpu.within_limits(i32::MAX));
}

#[test]
fn memory_surcharge_is_keyed_on_capacity() {
    assert_eq!(Memory::new(2048).cost(2), 4126);
    assert_eq!(Memory::new(1024).cost(1_000_000), 30);
    assert_eq!(Memory::new(0).cost(7), 30);
    assert_eq!(Memory::new(1025).cost(1), 32);
    assert_eq!(Memory::new(1025).cost(0), 30);
    assert_eq!(Memory::new(4096).penalty(100), 0);
}

#[test]
fn memory_limits_are_exact() {
    let memory = Memory::new(1025);
    assert!(memory.within_limits(1_073_741_808));
    assert_eq!(memory.cost(1_073_741_808), 2_147_483_646);
    assert!(!memory.within_limits(1_073_741_809));
    assert!(!Memory::new(u32::MAX).within_limits(i32::MAX));
    assert!(Memory::new(u32::MAX).within_limits(0));
    assert!(Memory::new(1024).within_limits(i32::MAX));
}

#[test]
fn storage_surcharge_is_one_and_a_half_rounded_down() {
    assert_eq!(Storage::new(100).cost(14), 1670);
    assert_eq!(Storage::new(100).cost(3), 20);
    assert_eq!(Storage::new(1).cost(4), 21);
    assert_eq!(Storage::new(3).cost(4), 24);
    assert_eq!(Storage::new(0).cost(100), 20);
}

#[test]
fn storage_penalty_comes_after_twelve_seconds() {
    assert_eq!(Storage::new(100).penalty(12), 0);
    assert_eq!(Storage::new(100).penalty(13), 1);
    assert_eq!(Storage::new(100).penalty(14), 1);
    assert_eq!(Storage::new(100).penalty(0), 0);
}

#[test]
fn storage_limits_are_exact() {
    let storage = Storage::new(1);
    // one and a half times 1_431_655_751 is 2_147_483_626, rounded down
    assert!(storage.within_limits(1_431_655_754));
    assert_eq!(storage.cost(1_431_655_754), 2_147_483_646);
    assert!(!storage.within_limits(1_431_655_756));
    assert!(!Storage::new(u32::MAX).within_limits(i32::MAX));
    assert!(Storage::new(u32::MAX).within_limits(3));
}

#[test]
fn sizes_add_and_subtract() {
    assert_eq!(MB::new(3).add(MB::new(4)).as_u32(), 7);
    assert_eq!(MB::new(2048).sub(MB::new(1024)).as_u32(), 1024);
    assert_eq!(MB::new(5), MB(5));
    assert_eq!(GB::new(3).add(GB::new(4)).as_u32(), 7);
    assert_eq!(GB::new(9).sub(GB::new(9)).as_u32(), 0);
    assert_eq!(GB::new(5), GB(5));
}

#[test]
fn resource_bills_by_the_standard_policy_of_its_kind() {
    let cpu = Resource::new(ResourceType::CPU, 4);
    assert_eq!(cpu.resource_type(), ResourceType::CPU);
    assert_eq!(cpu.capacity(), 4);
    assert_eq!(cpu.compute_cost(3), 60);
    assert_eq!(cpu.compute_penalty(3), 0);

    let memory = Resource::new(ResourceType::Memory, 2048);
    assert_eq!(memory.compute_cost(2), 4126);
    assert_eq!(memory.compute_penalty(2), 0);

    let storage = Resource::new(ResourceType::Storage, 100);
    assert_eq!(storage.compute_cost(14), 1670);
    assert_eq!(storage.compute_penalty(14), 1);
    assert!(storage.within_limits(14));
    assert!(!storage.within_limits(i32::MAX));
}

#[test]
fn empty_registry_knows_no_kind() {
    let factory = ResourceFactory::new();
    assert!(!factory.is_registered(ResourceType::CPU));
    assert!(!factory.is_registered(ResourceType::Memory));
    assert!(!factory.is_registered(ResourceType::Storage));
    assert_eq!(
        factory.create(ResourceType::Memory, 1).err(),
        Some(AccountingError::UnknownResourceKind(ResourceType::Memory))
    );
}

#[test]
fn registering_a_kind_makes_it_known_and_leaves_the_others() {
    let mut factory = ResourceFactory::new();
    factory.register(ResourceType::CPU, PolicyConstructor::standard(ResourceType::CPU));
    assert!(factory.is_registered(ResourceType::CPU));
    assert!(!factory.is_registered(ResourceType::Storage));
    let cpu = factory.create(ResourceType::CPU, 4).unwrap();
    assert_eq!(cpu.resource_type(), ResourceType::CPU);
    assert_eq!(cpu.capacity(), 4);
    assert_eq!(cpu.compute_cost(3), 60);
    assert!(factory.create(ResourceType::Storage, 4).is_err());
}

#[test]
fn a_kind_bills_as_the_constructor_it_is_bound_to() {
    let mut factory = ResourceFactory::new();
    factory.register(ResourceType::Memory, PolicyConstructor::Storage);
    let resource = factory.create(ResourceType::Memory, 100).unwrap();
    assert_eq!(resource.resource_type(), ResourceType::Memory);
    assert_eq!(resource.compute_cost(14), 1670);
    assert_eq!(resource.compute_penalty(14), 1);
    factory.register(ResourceType::Memory, PolicyConstructor::Memory);
    let resource = factory.create(ResourceType::Memory, 2048).unwrap();
    assert_eq!(resource.compute_cost(2), 4126);
    assert_eq!(resource.compute_penalty(14), 0);
}

#[test]
fn standard_registry_knows_the_three_kinds() {
    let factory = ResourceFactoryInstance::get();
    assert_eq!(factory.create(ResourceType::CPU, 4).unwrap().compute_cost(3), 60);
    assert_eq!(factory.create(ResourceType::Memory, 2048).unwrap().compute_cost(2), 4126);
    let storage = factory.create(ResourceType::Storage, 100).unwrap();
    assert_eq!(storage.compute_cost(14), 1670);
    assert_eq!(storage.compute_penalty(14), 1);
}

#[test]
fn allocation_delegates_to_its_resource() {
    let allocation = Allocation::new(Resource::new(ResourceType::Storage, 100), 14);
    assert_eq!(allocation.usage_time(), 14);
    assert_eq!(allocation.compute_cost(), 1670);
    assert_eq!(allocation.compute_penalty(), 1);
}

#[test]
fn allocation_factory_checks_kind_and_limits() {
    let factory = ResourceFactoryInstance::get();
    assert!(AllocationFactory::can_create(&factory, ResourceType::CPU, 4, 3));
    assert!(!AllocationFactory::can_create(&factory, ResourceType::CPU, 4, -1));
    assert!(!AllocationFactory::can_create(&factory, ResourceType::CPU, -4, 3));
    assert!(!AllocationFactory::can_create(&factory, ResourceType::CPU, 4, i32::MAX));
    assert!(!AllocationFactory::can_create(&factory, ResourceType::Memory, i32::MAX, i32::MAX));
    let allocation = AllocationFactory::create(&factory, ResourceType::Memory, 2048, 2).unwrap();
    assert_eq!(allocation.compute_cost(), 4126);

    let empty = ResourceFactory::new();
    assert!(AllocationFactory::can_create(&empty, ResourceType::CPU, 4, i32::MAX));
    assert_eq!(
        AllocationFactory::create(&empty, ResourceType::CPU, 4, 3).err(),
        Some(AccountingError::UnknownResourceKind(ResourceType::CPU))
    );
}

#[test]
fn process_sums_its_ledger() {
    let factory = ResourceFactoryInstance::get();
    let mut process = Process::new(9);
    assert_eq!(process.pid(), 9);
    assert_eq!(process.compute_cost(), 0);
    assert_eq!(process.compute_penalty(), 0);
    process.add_allocation(AllocationFactory::create(&factory, ResourceType::CPU, 4, 3).unwrap());
    process.add_allocation(AllocationFactory::create(&factory, ResourceType::Memory, 2048, 2).unwrap());
    assert_eq!(process.compute_cost(), 4186);
    assert_eq!(process.compute_penalty(), 0);
    process.add_allocation(AllocationFactory::create(&factory, ResourceType::Storage, 100, 14).unwrap());
    assert_eq!(process.compute_cost(), 5856);
    assert_eq!(process.compute_penalty(), 1);
}

#[test]
fn process_tells_when_its_totals_would_not_fit() {
    let factory = ResourceFactoryInstance::get();
    let mut process = Process::new(1);
    let large = AllocationFactory::create(&factory, ResourceType::CPU, 1, 214_748_361).unwrap();
    assert!(process.has_room_for(&large));
    process.add_allocation(large);
    assert_eq!(process.compute_cost(), 2_147_483_640);
    let small = AllocationFactory::create(&factory, ResourceType::CPU, 1, 0).unwrap();
    assert!(!process.has_room_for(&small));
    assert_eq!(process.compute_cost(), 2_147_483_640);
}

#[test]
fn processes_are_equal_by_pid() {
    let factory = ResourceFactoryInstance::get();
    let mut a = Process::new(3);
    a.add_allocation(AllocationFactory::create(&factory, ResourceType::CPU, 4, 3).unwrap());
    assert!(a == Process::new(3));
    assert!(a != Process::new(4));
}

#[test]
fn errors_say_what_went_wrong() {
    assert_eq!(
        AccountingError::DuplicateProcess(7).message(),
        "Process with pid 7 already exists"
    );
    assert_eq!(
        AccountingError::ProcessNotFound(4294967295).message(),
        "Process with pid 4294967295 not found"
    );
    assert_eq!(
        AccountingError::UnknownResourceKind(ResourceType::CPU).message(),
        "Resource type CPU not registered"
    );
    assert_eq!(
        AccountingError::UnknownResourceKind(ResourceType::Memory).message(),
        "Resource type Memory not registered"
    );
    assert_eq!(
        AccountingError::UnknownResourceKind(ResourceType::Storage).message(),
        "Resource type Storage not registered"
    );
}
