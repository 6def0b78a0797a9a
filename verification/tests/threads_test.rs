use resource::facade::compute_all_concurrent;
use resource::facade::compute_process;
use resource::facade::config_allocation;
use resource::facade::config_process;
use resource::ProcService;
use resource::ProcessRepo;
use resource::ResourceType;
use std::sync::RwLock;

#[test]
fn test_in_multiple_threads() {
    let service = RwLock::new(ProcService::new(ProcessRepo::new()));
    for i in 0..10 {
        let pid = i as u32;
        config_process(&mut service.write().unwrap(), pid).unwrap();
    }

    let service = &service;
    rayon::scope(|scope| {
        for i in 0..10 {
            scope.spawn(move |_| {
                let pid = i as u32;
                config_allocation(&mut service.write().unwrap(), pid, 3, ResourceType::CPU, 4)
                    .unwrap();
            });
        }

        for i in 0..10 {
            scope.spawn(move |_| {
                let pid = i as u32;
                config_allocation(&mut service.write().unwrap(), pid, 2, ResourceType::Memory, 2048)
                    .unwrap();
            });
        }

        for i in 0..10 {
            scope.spawn(move |_| {
                let pid = i as u32;
                config_allocation(&mut service.write().unwrap(), pid, 14, ResourceType::Storage, 100)
                    .unwrap();
            });
        }

        for i in 0..10 {
            scope.spawn(move |_| {
                let pid = i as u32;
                match compute_process(&service.read().unwrap(), pid).unwrap() {
                    (cost, penalty) => {
                        assert!(cost >= 0);
                        assert!(penalty >= 0);
                    }
                }
            });
        }
    });

    let result = compute_all_concurrent(&service.read().unwrap());
    assert_eq!(result.len(), 10);

    result.iter().for_each(|(_, cost, penalty)| {
        assert_eq!(*cost, 5856);
        assert_eq!(*penalty, 1);
    });
}
