//! The calls that a host application makes, on a service that it holds.

use vstd::prelude::*;
use crate::domain::error::AccountingError;
use crate::domain::process::Pid;
use crate::domain::resource::ResourceType;
use crate::service::model::is_report;
use crate::service::model::spec_add_allocation;
use crate::service::model::spec_add_process;
use crate::service::model::is_totals;
use crate::service::proc_service::ProcService;

verus! {

/// Registers a process under `pid`.
pub fn config_process(service: &mut ProcService, pid: Pid) -> (added: Result<(), AccountingError>)
    ensures
        final(service)@ == spec_add_process(old(service)@, pid).ledgers,
        added == spec_add_process(old(service)@, pid).answer,
        final(service).registry() == old(service).registry(),
{
    service.add_process(pid)
}

/// Books an allocation on the process at `pid`.
pub fn config_allocation(
    service: &mut ProcService,
    pid: Pid,
    time: i32,
    res: ResourceType,
    capacity: i32,
) -> (added: Result<(), AccountingError>)
    requires
        old(service).admissible(pid, time, res, capacity),
    ensures
        final(service)@ == spec_add_allocation(
            old(service).registry(),
            old(service)@,
            pid,
            time as int,
            res,
            capacity as int,
        ).ledgers,
        added == spec_add_allocation(
            old(service).registry(),
            old(service)@,
            pid,
            time as int,
            res,
            capacity as int,
        ).answer,
        final(service).registry() == old(service).registry(),
{
    service.add_allocation(pid, time, res, capacity)
}

/// Cost and penalty of the process at `pid`; `None` without one.
pub fn compute_process(service: &ProcService, pid: Pid) -> (totals: Option<(i32, i32)>)
    ensures
        is_totals(service@, pid, totals),
{
    service.compute_process(pid)
}

/// Cost and penalty of every process.
pub fn compute_all(service: &ProcService) -> (report: Vec<(Pid, i32, i32)>)
    ensures
        is_report(service@, report@),
{
    service.compute_all()
}

/// Cost and penalty of every process, computed on the worker pool.
pub fn compute_all_concurrent(service: &ProcService) -> (report: Vec<(Pid, i32, i32)>)
    ensures
        is_report(service@, report@),
{
    service.compute_all_concurrent()
}

} // verus!
