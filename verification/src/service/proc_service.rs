//! The accounting service: registers processes, books allocations, and
//! reports cost and penalty for one process or for all.

use vstd::prelude::*;
use super::model::is_report;
use super::model::is_totals;
use super::model::reported_pids;
use super::model::spec_add_allocation;
use super::model::spec_add_process;
use super::model::Ledgers;
use super::process_repo::visits;
use super::process_repo::ProcessRepo;
use crate::domain::allocation::Allocation;
use crate::domain::allocation::AllocationFactory;
use crate::domain::error::AccountingError;
use crate::domain::process::ledger_fits;
use crate::domain::process::total_cost;
use crate::domain::process::total_penalty;
use crate::domain::process::Pid;
use crate::domain::process::Process;
use crate::domain::resource::factory::ResourceFactory;
use crate::domain::resource::factory::ResourceFactoryInstance;
use crate::domain::resource::ResourceType;

verus! {

/// Cost and penalty of one process, as a line of a report.
fn report_on(pid: Pid, process: &Process) -> (line: (Pid, i32, i32))
    ensures
        line.0 == pid,
        line.1 == total_cost(process@),
        line.2 == total_penalty(process@),
{
    (pid, process.compute_cost(), process.compute_penalty())
}

pub struct ProcService {
    proc_repo: ProcessRepo,
    factory: ResourceFactory,
}

impl View for ProcService {
    type V = Ledgers;

    /// The ledger of each registered pid.
    closed spec fn view(&self) -> Ledgers {
        self.proc_repo@
    }
}

impl ProcService {
    /// The registry that decides which kinds are known and how they bill.
    pub closed spec fn registry(&self) -> ResourceFactory {
        self.factory
    }

    /// A service on `repo` that knows the three standard kinds.
    pub fn new(repo: ProcessRepo) -> (service: Self)
        ensures
            service@ == repo@,
            service.registry().is_standard(),
    {
        ProcService { proc_repo: repo, factory: ResourceFactoryInstance::get() }
    }

    /// A service on `repo` that knows the kinds registered in `factory`.
    pub fn with_factory(repo: ProcessRepo, factory: ResourceFactory) -> (service: Self)
        ensures
            service@ == repo@,
            service.registry() == factory,
    {
        ProcService { proc_repo: repo, factory }
    }

    /// Forgets every process. The registry stays.
    pub fn clear(&mut self)
        ensures
            final(self)@ == Map::<Pid, Seq<crate::domain::allocation::AllocationView>>::empty(),
            final(self).registry() == old(self).registry(),
    {
        self.proc_repo.clear();
    }

    pub fn add_process(&mut self, pid: Pid) -> (added: Result<(), AccountingError>)
        ensures
            final(self)@ == spec_add_process(old(self)@, pid).ledgers,
            added == spec_add_process(old(self)@, pid).answer,
            final(self).registry() == old(self).registry(),
    {
        match self.proc_repo.add_process(&pid, Process::new(pid)) {
            Ok(_) => Ok(()),
            Err(e) => Err(e),
        }
    }

    /// Whether `add_allocation` has an answer within the machine's limits:
    /// time and capacity are not negative, and where the request would be
    /// booked, the amounts and the new totals of the process can be held.
    pub open spec fn admissible(
        &self,
        pid: Pid,
        time: i32,
        res: ResourceType,
        capacity: i32,
    ) -> bool {
        &&& AllocationFactory::creatable(self.registry(), res, capacity as int, time as int)
        &&& self.registry().registered(res) && self@.contains_key(pid) ==> ledger_fits(
            self@[pid].push(
                AllocationFactory::spec_create(self.registry(), res, capacity as int, time as int),
            ),
        )
    }

    /// Tells whether `add_allocation` may be called with these arguments.
    pub fn admits(&self, pid: Pid, time: i32, res: ResourceType, capacity: i32) -> (ok: bool)
        ensures
            ok == self.admissible(pid, time, res, capacity),
    {
        if !AllocationFactory::can_create(&self.factory, res, capacity, time) {
            return false;
        }
        match AllocationFactory::create(&self.factory, res, capacity, time) {
            Ok(allocation) => {
                proof {
                    self.proc_repo.lemma_view();
                }
                let room = |process: &Process| -> (ok: bool)
                    ensures
                        ok == ledger_fits(process@.push(allocation@)),
                    {
                        process.has_room_for(&allocation)
                    };
                match self.proc_repo.with_process(&pid, room) {
                    Ok(ok) => ok,
                    Err(_) => true,
                }
            },
            Err(_) => true,
        }
    }

    /// Books `capacity` of a resource of kind `res`, used for `time`
    /// seconds, on the process at `pid`. The kind is checked before the
    /// process is looked up, and a request that fails changes nothing.
    pub fn add_allocation(&mut self, pid: Pid, time: i32, res: ResourceType, capacity: i32) -> (added:
        Result<(), AccountingError>)
        requires
            old(self).admissible(pid, time, res, capacity),
        ensures
            final(self)@ == spec_add_allocation(
                old(self).registry(),
                old(self)@,
                pid,
                time as int,
                res,
                capacity as int,
            ).ledgers,
            added == spec_add_allocation(
                old(self).registry(),
                old(self)@,
                pid,
                time as int,
                res,
                capacity as int,
            ).answer,
            final(self).registry() == old(self).registry(),
    {
        let allocation: Allocation = match AllocationFactory::create(
            &self.factory,
            res,
            capacity,
            time,
        ) {
            Ok(allocation) => allocation,
            Err(e) => {
                return Err(e);
            },
        };
        proof {
            self.proc_repo.lemma_view();
        }
        let ghost entry = allocation@;
        let append = move |process: Process| -> (grown: Process)
            requires
                ledger_fits(process@.push(allocation@)),
            ensures
                grown@ == process@.push(entry),
            {
                let mut process = process;
                process.add_allocation(allocation);
                process
            };
        match self.proc_repo.with_process_mut(&pid, append) {
            Ok(_) => Ok(()),
            Err(e) => Err(e),
        }
    }

    /// Books as `add_allocation` does where the request is within the
    /// machine's limits, and answers `None` and changes nothing where it is
    /// not.
    pub fn add_allocation_checked(
        &mut self,
        pid: Pid,
        time: i32,
        res: ResourceType,
        capacity: i32,
    ) -> (added: Option<Result<(), AccountingError>>)
        ensures
            match added {
                Some(answer) => {
                    &&& old(self).admissible(pid, time, res, capacity)
                    &&& final(self)@ == spec_add_allocation(
                        old(self).registry(),
                        old(self)@,
                        pid,
                        time as int,
                        res,
                        capacity as int,
                    ).ledgers
                    &&& answer == spec_add_allocation(
                        old(self).registry(),
                        old(self)@,
                        pid,
                        time as int,
                        res,
                        capacity as int,
                    ).answer
                },
                None => {
                    &&& !old(self).admissible(pid, time, res, capacity)
                    &&& final(self)@ == old(self)@
                },
            },
            final(self).registry() == old(self).registry(),
    {
        if self.admits(pid, time, res, capacity) {
            Some(self.add_allocation(pid, time, res, capacity))
        } else {
            None
        }
    }

    /// Cost and penalty of the process at `pid`; `None` without one.
    pub fn compute_process(&self, pid: Pid) -> (totals: Option<(i32, i32)>)
        ensures
            is_totals(self@, pid, totals),
    {
        proof {
            self.proc_repo.lemma_view();
        }
        let totals = |process: &Process| -> (t: (i32, i32))
            ensures
                t.0 == total_cost(process@),
                t.1 == total_penalty(process@),
            {
                (process.compute_cost(), process.compute_penalty())
            };
        match self.proc_repo.with_process(&pid, totals) {
            Ok(t) => Some(t),
            Err(_) => None,
        }
    }

    /// Cost and penalty of every process, computed one after the other.
    pub fn compute_all(&self) -> (report: Vec<(Pid, i32, i32)>)
        ensures
            is_report(self@, report@),
    {
        let line = |pid: Pid, process: &Process| -> (line: (Pid, i32, i32))
            ensures
                line.0 == pid,
                line.1 == total_cost(process@),
                line.2 == total_penalty(process@),
            {
                report_on(pid, process)
            };
        let report = self.proc_repo.for_each(line);
        proof {
            self.proc_repo.lemma_view();
            let pids = choose|pids: Seq<Pid>| visits(self.proc_repo.held(), line, pids, report@);
            assert forall|i: int| 0 <= i < report.len() implies (#[trigger] report[i]).0 == pids[i]
                && report[i].1 == total_cost(self@[pids[i]]) && report[i].2 == total_penalty(
                self@[pids[i]],
            ) by {
                assert(pids.to_set().contains(pids[i])) by {
                    assert(pids.contains(pids[i]));
                }
                assert(self@.contains_key(pids[i]));
            }
            assert(reported_pids(report@) =~= pids);
        }
        report
    }

    /// Cost and penalty of every process, computed on the worker pool. The
    /// lines are those of `compute_all`, in an order of their own.
    pub fn compute_all_concurrent(&self) -> (report: Vec<(Pid, i32, i32)>)
        ensures
            is_report(self@, report@),
    {
        let line = |pid: Pid, process: &Process| -> (line: (Pid, i32, i32))
            ensures
                line.0 == pid,
                line.1 == total_cost(process@),
                line.2 == total_penalty(process@),
            {
                report_on(pid, process)
            };
        let report = self.proc_repo.map_concurrent(line);
        proof {
            self.proc_repo.lemma_view();
            let pids = choose|pids: Seq<Pid>| visits(self.proc_repo.held(), line, pids, report@);
            assert forall|i: int| 0 <= i < report.len() implies (#[trigger] report[i]).0 == pids[i]
                && report[i].1 == total_cost(self@[pids[i]]) && report[i].2 == total_penalty(
                self@[pids[i]],
            ) by {
                assert(pids.to_set().contains(pids[i])) by {
                    assert(pids.contains(pids[i]));
                }
                assert(self@.contains_key(pids[i]));
            }
            assert(reported_pids(report@) =~= pids);
        }
        report
    }
}

} // verus!
