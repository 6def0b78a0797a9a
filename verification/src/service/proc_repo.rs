//! A repository for one owner: processes in a hash map, handed out by
//! reference.

use vstd::prelude::*;
use std::collections::HashMap;
use std::collections::hash_map::Entry;
use crate::domain::allocation::AllocationView;
use crate::domain::error::AccountingError;
use crate::domain::process::Pid;
use crate::domain::process::Process;

verus! {

pub struct ProcRepo {
    procs: HashMap<Pid, Process>,
}

impl View for ProcRepo {
    type V = Map<Pid, Seq<AllocationView>>;

    /// The ledger of each registered pid.
    closed spec fn view(&self) -> Map<Pid, Seq<AllocationView>> {
        self.procs@.map_values(|p: Process| p@)
    }
}

impl ProcRepo {
    /// A repository without processes.
    pub fn new() -> (repo: Self)
        ensures
            repo@ == Map::<Pid, Seq<AllocationView>>::empty(),
    {
        let repo = ProcRepo { procs: HashMap::new() };
        assert(repo@ =~= Map::<Pid, Seq<AllocationView>>::empty());
        repo
    }

    /// Files `proc` under `pid`, unless a process is filed there already:
    /// then nothing changes.
    pub fn add_proc(&mut self, pid: &Pid, proc: Process) -> (added: Result<(), AccountingError>)
        ensures
            match added {
                Ok(_) => {
                    &&& !old(self)@.contains_key(*pid)
                    &&& final(self)@ == old(self)@.insert(*pid, proc@)
                },
                Err(e) => {
                    &&& old(self)@.contains_key(*pid)
                    &&& e == AccountingError::DuplicateProcess(*pid)
                    &&& final(self)@ == old(self)@
                },
            },
    {
        if self.procs.contains_key(pid) {
            return Err(AccountingError::DuplicateProcess(*pid));
        }
        self.procs.insert(*pid, proc);
        assert(self@ =~= old(self)@.insert(*pid, proc@));
        Ok(())
    }

    pub fn get_proc(&self, pid: &Pid) -> (found: Option<&Process>)
        ensures
            match found {
                Some(process) => self@.contains_key(*pid) && process@ == self@[*pid],
                None => !self@.contains_key(*pid),
            },
    {
        self.procs.get(pid)
    }

    /// Exclusive access to the process at `pid`: what the caller appends to
    /// its ledger is what the repository then holds for it.
    pub fn get_proc_mut(&mut self, pid: &Pid) -> (found: Option<&mut Process>)
        ensures
            match found {
                Some(process) => {
                    &&& old(self)@.contains_key(*pid)
                    &&& process@ == old(self)@[*pid]
                    &&& final(self)@ == old(self)@.insert(*pid, final(process)@)
                },
                None => {
                    &&& !old(self)@.contains_key(*pid)
                    &&& final(self)@ == old(self)@
                },
            },
    {
        match self.procs.entry(*pid) {
            Entry::Occupied(occupied) => Some(occupied.into_mut()),
            Entry::Vacant(_) => None,
        }
    }
}

} // verus!
