use resource::domain::allocation::AllocationFactory;
use resource::domain::error::AccountingError;
use resource::domain::process::Process;
use resource::domain::resource::factory::PolicyConstructor;
use resource::domain::resource::factory::ResourceFactory;
use resource::domain::resource::factory::ResourceFactoryInstance;
use resource::facade::compute_all;
use resource::facade::compute_all_concurrent;
use resource::facade::compute_process;
use resource::facade::config_allocation;
use resource::facade::config_process;
use resource::service::proc_repo::ProcRepo;
use resource::ProcService;
use resource::ProcessRepo;
use resource::ResourceType;

#[test]
#[allow(non_snake_case)]
fn could_exec_CRUD_from_repo() {
    let factory = ResourceFactoryInstance::get();
    let mut repo = ProcessRepo::new();
    let pid = 0;

    let mut proc = Process::new(pid);
    proc.add_allocation(AllocationFactory::create(&factory, ResourceType::CPU, 2, 3).unwrap());
    repo.add_process(&pid, proc).expect("Could add process");

    let pid = 1;
    let mut proc = Process::new(pid);
    proc.add_allocation(AllocationFactory::create(&factory, ResourceType::CPU, 4, 2).unwrap());
    repo.add_process(&pid, proc).expect("Could add process");

    let result =
        repo.map_concurrent(|pid, proc| (pid, proc.compute_cost(), proc.compute_penalty()));

    assert_eq!(result.len(), 2);
    assert!(result.contains(&(0, 60, 0)));
    assert!(result.contains(&(1, 50, 0)));
}

#[test]
fn test_in_single_thread() {
    let mut service = ProcService::new(ProcessRepo::new());
    for i in 0..10 {
        let pid = i as u32;
        config_process(&mut service, pid).unwrap();

        config_allocation(&mut service, pid, 3, ResourceType::CPU, 4).unwrap();

        config_allocation(&mut service, pid, 2, ResourceType::Memory, 2048).unwrap();

        config_allocation(&mut service, pid, 14, ResourceType::Storage, 100).unwrap();
    }

    for i in 0..10 {
        let pid = i as u32;
        match compute_process(&service, pid).unwrap() {
            (cost, penalty) => {
                assert!(cost >= 0);
                assert!(penalty >= 0);
            }
        }
    }

    let result = compute_all_concurrent(&service);

    assert_eq!(result.len(), 10);

    result.iter().for_each(|(_, cost, penalty)| {
        assert_eq!(*cost, 5856);
        assert_eq!(*penalty, 1);
    });

    let mut sequential = compute_all(&service);
    let mut concurrent = result;
    sequential.sort();
    concurrent.sort();
    assert_eq!(sequential, concurrent);
}

#[test]
fn allocation_to_an_unregistered_pid_is_refused_and_changes_nothing() {
    let mut service = ProcService::new(ProcessRepo::new());
    service.add_process(1).unwrap();
    service.add_allocation(1, 3, ResourceType::CPU, 4).unwrap();
    let before = service.compute_all();

    assert_eq!(
        service.add_allocation(2, 3, ResourceType::CPU, 4),
        Err(AccountingError::ProcessNotFound(2))
    );

    assert_eq!(service.compute_all(), before);
    assert_eq!(service.compute_process(2), None);
    assert_eq!(service.compute_process(1), Some((60, 0)));
}

#[test]
fn allocation_of_an_unregistered_kind_is_refused_and_changes_nothing() {
    let mut factory = ResourceFactory::new();
    factory.register(ResourceType::CPU, PolicyConstructor::Cpu);
    factory.register(ResourceType::Memory, PolicyConstructor::Memory);
    let mut service = ProcService::with_factory(ProcessRepo::new(), factory);
    service.add_process(1).unwrap();
    service.add_allocation(1, 3, ResourceType::CPU, 4).unwrap();

    assert_eq!(
        service.add_allocation(1, 14, ResourceType::Storage, 100),
        Err(AccountingError::UnknownResourceKind(ResourceType::Storage))
    );
    assert_eq!(service.compute_process(1), Some((60, 0)));

    // the kind is looked up before the process is
    assert_eq!(
        service.add_allocation(5, 14, ResourceType::Storage, 100),
        Err(AccountingError::UnknownResourceKind(ResourceType::Storage))
    );
    assert_eq!(service.compute_process(5), None);
    assert_eq!(service.compute_all(), vec![(1, 60, 0)]);
}

#[test]
fn compute_process_is_repeatable() {
    let mut service = ProcService::new(ProcessRepo::new());
    service.add_process(3).unwrap();
    service.add_allocation(3, 14, ResourceType::Storage, 100).unwrap();
    let first = service.compute_process(3);
    let second = service.compute_process(3);
    assert_eq!(first, Some((1670, 1)));
    assert_eq!(first, second);
    service.add_process(4).unwrap();
    service.add_allocation(4, 3, ResourceType::CPU, 1).unwrap();
    assert_eq!(service.compute_process(3), first);
}

#[test]
fn reports_agree_as_multisets() {
    let mut service = ProcService::new(ProcessRepo::new());
    for pid in 0..50u32 {
        service.add_process(pid).unwrap();
        service.add_allocation(pid, (pid % 7) as i32, ResourceType::CPU, 1).unwrap();
        if pid % 2 == 0 {
            service.add_allocation(pid, 13, ResourceType::Storage, pid as i32).unwrap();
        }
    }
    let mut sequential = service.compute_all();
    let mut concurrent = service.compute_all_concurrent();
    assert_eq!(sequential.len(), 50);
    sequential.sort();
    concurrent.sort();
    assert_eq!(sequential, concurrent);
    assert_eq!(sequential[4], (4, 70 + 80, 1));
    assert_eq!(sequential[5], (5, 80, 0));
}

#[test]
fn empty_service_reports_nothing() {
    let service = ProcService::new(ProcessRepo::new());
    assert_eq!(service.compute_all(), vec![]);
    assert_eq!(service.compute_all_concurrent(), vec![]);
    assert_eq!(service.compute_process(0), None);
}

#[test]
fn service_tells_which_requests_it_admits() {
    let mut service = ProcService::new(ProcessRepo::new());
    service.add_process(1).unwrap();
    assert!(service.admits(1, 3, ResourceType::CPU, 4));
    assert!(!service.admits(1, -3, ResourceType::CPU, 4));
    assert!(!service.admits(1, 3, ResourceType::CPU, -4));
    assert!(!service.admits(1, i32::MAX, ResourceType::CPU, 4));
    // a request for an absent pid is admitted: it is answered with an error
    assert!(service.admits(2, 3, ResourceType::CPU, 4));
    service.add_allocation(1, 214_748_361, ResourceType::CPU, 4).unwrap();
    assert!(!service.admits(1, 0, ResourceType::CPU, 4));
    assert!(service.admits(2, 0, ResourceType::CPU, 4));
    assert_eq!(service.compute_process(1), Some((2_147_483_640, 0)));
}

#[test]
fn checked_booking_declines_what_is_beyond_the_limits() {
    let mut service = ProcService::new(ProcessRepo::new());
    service.add_process(1).unwrap();
    assert_eq!(
        service.add_allocation_checked(1, 3, ResourceType::CPU, 4),
        Some(Ok(()))
    );
    assert_eq!(service.add_allocation_checked(1, i32::MAX, ResourceType::CPU, 4), None);
    assert_eq!(service.add_allocation_checked(1, -1, ResourceType::CPU, 4), None);
    assert_eq!(
        service.add_allocation_checked(2, 3, ResourceType::CPU, 4),
        Some(Err(AccountingError::ProcessNotFound(2)))
    );
    assert_eq!(service.compute_process(1), Some((60, 0)));
}

#[test]
fn clear_forgets_every_process() {
    let mut service = ProcService::new(ProcessRepo::new());
    service.add_process(1).unwrap();
    service.add_process(2).unwrap();
    service.clear();
    assert_eq!(service.compute_all(), vec![]);
    assert_eq!(service.add_process(1), Ok(()));
    assert_eq!(
        service.add_allocation(1, 14, ResourceType::Storage, 100),
        Ok(())
    );
    assert_eq!(service.compute_process(1), Some((1670, 1)));
}

#[test]
fn repository_files_a_pid_once() {
    let factory = ResourceFactoryInstance::get();
    let mut repo = ProcessRepo::new();
    assert!(!repo.contains(&8));
    let mut first = Process::new(8);
    first.add_allocation(AllocationFactory::create(&factory, ResourceType::CPU, 2, 3).unwrap());
    assert_eq!(repo.add_process(&8, first), Ok(()));
    assert!(repo.contains(&8));
    assert_eq!(
        repo.add_process(&8, Process::new(8)),
        Err(AccountingError::DuplicateProcess(8))
    );
    assert_eq!(repo.with_process(&8, |process| process.compute_cost()), Ok(60));
    assert_eq!(
        repo.with_process(&9, |process| process.compute_cost()),
        Err(AccountingError::ProcessNotFound(9))
    );
    repo.clear();
    assert!(!repo.contains(&8));
}

#[test]
fn repository_gives_exclusive_access_to_one_process() {
    let factory = ResourceFactoryInstance::get();
    let mut repo = ProcessRepo::new();
    repo.add_process(&1, Process::new(1)).unwrap();
    repo.add_process(&2, Process::new(2)).unwrap();
    let allocation = AllocationFactory::create(&factory, ResourceType::Memory, 2048, 2).unwrap();
    assert_eq!(
        repo.with_process_mut(&1, move |mut process| {
            process.add_allocation(allocation);
            process
        }),
        Ok(())
    );
    assert_eq!(repo.with_process(&1, |process| process.compute_cost()), Ok(4126));
    assert_eq!(repo.with_process(&2, |process| process.compute_cost()), Ok(0));
    assert_eq!(
        repo.with_process_mut(&3, |process| process),
        Err(AccountingError::ProcessNotFound(3))
    );
}

#[test]
fn repository_scans_every_process_once() {
    let factory = ResourceFactoryInstance::get();
    let mut repo = ProcessRepo::new();
    for pid in 0..20u32 {
        repo.add_process(&pid, Process::new(pid)).unwrap();
    }
    repo.for_each_mut(|pid, mut process| {
        let allocation =
            AllocationFactory::create(&factory, ResourceType::CPU, 1, pid as i32).unwrap();
        process.add_allocation(allocation);
        process
    });
    let mut seen = repo.for_each(|pid, process| (pid, process.compute_cost()));
    seen.sort();
    assert_eq!(seen.len(), 20);
    for pid in 0..20u32 {
        let cost = if pid > 2 { 50 + (pid as i32 - 2) * 10 } else { 50 };
        assert_eq!(seen[pid as usize], (pid, cost));
    }
    let mut spread = repo.map_concurrent(|pid, process| (pid, process.compute_cost()));
    spread.sort();
    assert_eq!(spread, seen);
}

#[test]
fn hash_map_repository_hands_out_processes() {
    let factory = ResourceFactoryInstance::get();
    let mut repo = ProcRepo::new();
    assert!(repo.get_proc(&1).is_none());
    assert!(repo.get_proc_mut(&1).is_none());
    assert_eq!(repo.add_proc(&1, Process::new(1)), Ok(()));
    assert_eq!(
        repo.add_proc(&1, Process::new(1)),
        Err(AccountingError::DuplicateProcess(1))
    );
    repo.get_proc_mut(&1)
        .unwrap()
        .add_allocation(AllocationFactory::create(&factory, ResourceType::Storage, 100, 14).unwrap());
    assert_eq!(repo.get_proc(&1).unwrap().compute_cost(), 1670);
    assert_eq!(repo.get_proc(&1).unwrap().compute_penalty(), 1);
    assert!(repo.get_proc(&2).is_none());
}
