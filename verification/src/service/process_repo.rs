//! A repository whose processes live in a sharded map, so that a scan of the
//! whole population can be spread over a worker pool.

use vstd::prelude::*;
use dashmap::DashMap;
use rayon::iter::IntoParallelRefIterator;
use rayon::iter::ParallelIterator;
use crate::domain::allocation::AllocationView;
use crate::domain::error::AccountingError;
use crate::domain::process::Pid;
use crate::domain::process::Process;

verus! {

/// `dashmap::DashMap`, the sharded concurrent map: the verifier sees none of
/// its insides, only what the functions below say of it.
#[verifier::external_type_specification]
#[verifier::external_body]
#[verifier::reject_recursive_types(K)]
#[verifier::reject_recursive_types(V)]
#[verifier::reject_recursive_types(S)]
pub struct ExDashMap<K, V, S>(DashMap<K, V, S>);

/// The processes that a sharded map holds, by pid.
pub uninterp spec fn entries(map: DashMap<Pid, Process>) -> Map<Pid, Process>;

/// `DashMap::new`: a map that holds nothing.
#[verifier::external_body]
fn shards_new() -> (map: DashMap<Pid, Process>)
    ensures
        entries(map).dom() == Set::<Pid>::empty(),
{
    DashMap::new()
}

/// `DashMap::clear`: afterwards the map holds nothing.
#[verifier::external_body]
fn shards_clear(map: &mut DashMap<Pid, Process>)
    ensures
        entries(*final(map)).dom() == Set::<Pid>::empty(),
{
    map.clear()
}

/// `DashMap::contains_key`: whether the map holds an entry for `pid`.
#[verifier::external_body]
fn shards_contains_key(map: &DashMap<Pid, Process>, pid: Pid) -> (held: bool)
    ensures
        held == entries(*map).contains_key(pid),
{
    map.contains_key(&pid)
}

/// `DashMap::insert`: afterwards the map holds `process` at `pid` and its
/// other entries as before; the value that was at `pid`, if any, is returned.
#[verifier::external_body]
fn shards_insert(map: &mut DashMap<Pid, Process>, pid: Pid, process: Process) -> (previous: Option<
    Process,
>)
    ensures
        entries(*final(map)) == entries(*old(map)).insert(pid, process),
        previous == if entries(*old(map)).contains_key(pid) {
            Some(entries(*old(map))[pid])
        } else {
            None
        },
{
    map.insert(pid, process)
}

/// `DashMap::view`: calls `f` on the entry at `pid` and returns its result,
/// or `None` without a call where the map has no such entry.
#[verifier::external_body]
fn shards_view<R, F: FnOnce(&Process) -> R>(map: &DashMap<Pid, Process>, pid: Pid, f: F) -> (seen:
    Option<R>)
    requires
        entries(*map).contains_key(pid) ==> call_requires(f, (&entries(*map)[pid],)),
    ensures
        match seen {
            Some(result) => entries(*map).contains_key(pid) && call_ensures(
                f,
                (&entries(*map)[pid],),
                result,
            ),
            None => !entries(*map).contains_key(pid),
        },
{
    map.view(&pid, |_, process| f(process))
}

/// `DashMap::alter`: puts what `f` makes of the entry at `pid` in its
/// place; the other entries stay, and a map without such an entry stays as
/// it is, without a call.
#[verifier::external_body]
fn shards_alter<F: FnOnce(Process) -> Process>(map: &mut DashMap<Pid, Process>, pid: Pid, f: F)
    requires
        entries(*old(map)).contains_key(pid) ==> call_requires(f, (entries(*old(map))[pid],)),
    ensures
        entries(*old(map)).contains_key(pid) ==> call_ensures(
            f,
            (entries(*old(map))[pid],),
            entries(*final(map))[pid],
        ),
        entries(*final(map)) == if entries(*old(map)).contains_key(pid) {
            entries(*old(map)).insert(pid, entries(*final(map))[pid])
        } else {
            entries(*old(map))
        },
{
    map.alter(&pid, |_, process| f(process))
}

/// `DashMap::alter_all`: puts what `f` makes of each entry in its place. No
/// entry comes or goes.
#[verifier::external_body]
fn shards_alter_all<F: Fn(Pid, Process) -> Process>(map: &mut DashMap<Pid, Process>, f: F)
    requires
        forall|pid: Pid| #[trigger]
            entries(*old(map)).contains_key(pid) ==> call_requires(
                f,
                (pid, entries(*old(map))[pid]),
            ),
    ensures
        entries(*final(map)).dom() == entries(*old(map)).dom(),
        forall|pid: Pid| #[trigger]
            entries(*final(map)).contains_key(pid) ==> call_ensures(
                f,
                (pid, entries(*old(map))[pid]),
                entries(*final(map))[pid],
            ),
{
    map.alter_all(|pid, process| f(*pid, process))
}

/// `DashMap::iter`, keys only: every pid of the map once, in an order that
/// the map does not promise.
#[verifier::external_body]
fn shards_keys(map: &DashMap<Pid, Process>) -> (pids: Vec<Pid>)
    ensures
        pids@.no_duplicates(),
        pids@.to_set() == entries(*map).dom(),
{
    map.iter().map(|entry| *entry.key()).collect()
}

/// Whether `results` is what `f` returned for the entries of `held`, taken in
/// the order `pids`: every pid once, each result at the place of its pid.
pub open spec fn visits<R, F: Fn(Pid, &Process) -> R>(
    held: Map<Pid, Process>,
    f: F,
    pids: Seq<Pid>,
    results: Seq<R>,
) -> bool {
    &&& pids.no_duplicates()
    &&& pids.to_set() == held.dom()
    &&& pids.len() == results.len()
    &&& forall|i: int|
        0 <= i < pids.len() ==> call_ensures(f, (pids[i], &held[pids[i]]), #[trigger] results[i])
}

/// Whether `results` is what `f` returned for the entries of `held`, one
/// result for each entry, in some order.
pub open spec fn covers<R, F: Fn(Pid, &Process) -> R>(
    held: Map<Pid, Process>,
    f: F,
    results: Seq<R>,
) -> bool {
    exists|pids: Seq<Pid>| #[trigger] visits(held, f, pids, results)
}

/// `par_iter` of the sharded map, `map` and `collect` of rayon: `f` is
/// called once on every entry, on the pool's workers, and the results are
/// gathered in an order that is not promised.
#[verifier::external_body]
fn shards_par_map<R: Send, F: Fn(Pid, &Process) -> R + Send + Sync>(
    map: &DashMap<Pid, Process>,
    f: F,
) -> (results: Vec<R>)
    requires
        forall|pid: Pid| #[trigger]
            entries(*map).contains_key(pid) ==> call_requires(f, (pid, &entries(*map)[pid])),
    ensures
        covers(entries(*map), f, results@),
{
    map.par_iter().map(|entry| f(*entry.key(), entry.value())).collect()
}

/// A keyed store of processes. A pid is filed once and never overwritten;
/// nothing is removed but by `clear`.
pub struct ProcessRepo {
    procs: DashMap<Pid, Process>,
}

impl View for ProcessRepo {
    type V = Map<Pid, Seq<AllocationView>>;

    /// The ledger of each registered pid.
    closed spec fn view(&self) -> Map<Pid, Seq<AllocationView>> {
        entries(self.procs).map_values(|p: Process| p@)
    }
}

impl ProcessRepo {
    /// The processes held, by pid.
    pub closed spec fn held(&self) -> Map<Pid, Process> {
        entries(self.procs)
    }

    /// The view is the ledgers of the processes held.
    pub proof fn lemma_view(&self)
        ensures
            self@.dom() == self.held().dom(),
            forall|pid: Pid| #[trigger] self@.contains_key(pid) ==> self@[pid] == self.held()[pid]@,
    {
    }

    /// A repository without processes.
    pub fn new() -> (repo: Self)
        ensures
            repo@ == Map::<Pid, Seq<AllocationView>>::empty(),
    {
        let repo = ProcessRepo { procs: shards_new() };
        assert(repo@ =~= Map::<Pid, Seq<AllocationView>>::empty());
        repo
    }

    /// Removes every process.
    pub fn clear(&mut self)
        ensures
            final(self)@ == Map::<Pid, Seq<AllocationView>>::empty(),
    {
        shards_clear(&mut self.procs);
        assert(self@ =~= Map::<Pid, Seq<AllocationView>>::empty());
    }

    pub fn contains(&self, pid: &Pid) -> (held: bool)
        ensures
            held == self@.contains_key(*pid),
    {
        shards_contains_key(&self.procs, *pid)
    }

    /// Files `proc` under `pid`, unless a process is filed there already:
    /// then nothing changes.
    pub fn add_process(&mut self, pid: &Pid, proc: Process) -> (added: Result<(), AccountingError>)
        ensures
            match added {
                Ok(_) => {
                    &&& !old(self)@.contains_key(*pid)
                    &&& final(self)@ == old(self)@.insert(*pid, proc@)
                    &&& final(self).held() == old(self).held().insert(*pid, proc)
                },
                Err(e) => {
                    &&& old(self)@.contains_key(*pid)
                    &&& e == AccountingError::DuplicateProcess(*pid)
                    &&& final(self)@ == old(self)@
                    &&& final(self).held() == old(self).held()
                },
            },
    {
        if shards_contains_key(&self.procs, *pid) {
            return Err(AccountingError::DuplicateProcess(*pid));
        }
        let _ = shards_insert(&mut self.procs, *pid, proc);
        assert(self@ =~= old(self)@.insert(*pid, proc@));
        Ok(())
    }

    /// Calls `f` on the process at `pid`, and on no other.
    pub fn with_process<R, F: FnOnce(&Process) -> R>(&self, pid: &Pid, f: F) -> (seen: Result<
        R,
        AccountingError,
    >)
        requires
            self@.contains_key(*pid) ==> call_requires(f, (&self.held()[*pid],)),
        ensures
            match seen {
                Ok(result) => {
                    &&& self@.contains_key(*pid)
                    &&& call_ensures(f, (&self.held()[*pid],), result)
                },
                Err(e) => {
                    &&& !self@.contains_key(*pid)
                    &&& e == AccountingError::ProcessNotFound(*pid)
                },
            },
    {
        match shards_view(&self.procs, *pid, f) {
            Some(result) => Ok(result),
            None => Err(AccountingError::ProcessNotFound(*pid)),
        }
    }

    /// Puts what `f` makes of the process at `pid` in its place. No other
    /// process is touched, and without a process at `pid` nothing changes.
    pub fn with_process_mut<F: FnOnce(Process) -> Process>(&mut self, pid: &Pid, f: F) -> (done:
        Result<(), AccountingError>)
        requires
            old(self)@.contains_key(*pid) ==> call_requires(f, (old(self).held()[*pid],)),
        ensures
            match done {
                Ok(_) => {
                    &&& old(self)@.contains_key(*pid)
                    &&& call_ensures(f, (old(self).held()[*pid],), final(self).held()[*pid])
                    &&& final(self).held() == old(self).held().insert(
                        *pid,
                        final(self).held()[*pid],
                    )
                    &&& final(self)@ == old(self)@.insert(*pid, final(self).held()[*pid]@)
                },
                Err(e) => {
                    &&& !old(self)@.contains_key(*pid)
                    &&& e == AccountingError::ProcessNotFound(*pid)
                    &&& final(self)@ == old(self)@
                    &&& final(self).held() == old(self).held()
                },
            },
    {
        if !shards_contains_key(&self.procs, *pid) {
            return Err(AccountingError::ProcessNotFound(*pid));
        }
        shards_alter(&mut self.procs, *pid, f);
        assert(self@ =~= old(self)@.insert(*pid, self.held()[*pid]@));
        Ok(())
    }

    /// Calls `f` on every process, one after the other, and returns what it
    /// returned, one result for each process.
    pub fn for_each<R, F: Fn(Pid, &Process) -> R>(&self, f: F) -> (results: Vec<R>)
        requires
            forall|pid: Pid| #[trigger]
                self@.contains_key(pid) ==> call_requires(f, (pid, &self.held()[pid])),
        ensures
            covers(self.held(), f, results@),
    {
        let pids: Vec<Pid> = shards_keys(&self.procs);
        let mut results: Vec<R> = Vec::new();
        let mut i: usize = 0;
        while i < pids.len()
            invariant
                i <= pids.len(),
                results.len() == i,
                pids@.no_duplicates(),
                pids@.to_set() == self.held().dom(),
                self.held() == entries(self.procs),
                forall|pid: Pid| #[trigger]
                    self@.contains_key(pid) ==> call_requires(f, (pid, &self.held()[pid])),
                forall|j: int|
                    0 <= j < i ==> call_ensures(
                        f,
                        (pids[j], &self.held()[pids[j]]),
                        #[trigger] results[j],
                    ),
            decreases pids.len() - i,
        {
            let pid: Pid = pids[i];
            assert(pids@.to_set().contains(pid)) by {
                assert(pids@.contains(pids@[i as int]));
            }
            assert(self@.contains_key(pid));
            let visit = |process: &Process| -> (result: R)
                requires
                    call_requires(f, (pid, process)),
                ensures
                    call_ensures(f, (pid, process), result),
                {
                    f(pid, process)
                };
            let seen = shards_view(&self.procs, pid, visit);
            match seen {
                Some(result) => {
                    results.push(result);
                },
                None => {
                    assert(false);
                },
            }
            i = i + 1;
        }
        assert(visits(self.held(), f, pids@, results@));
        results
    }

    /// Puts what `f` makes of each process in its place, one process after
    /// the other. No process comes or goes.
    pub fn for_each_mut<F: Fn(Pid, Process) -> Process>(&mut self, f: F)
        requires
            forall|pid: Pid| #[trigger]
                old(self)@.contains_key(pid) ==> call_requires(f, (pid, old(self).held()[pid])),
        ensures
            final(self)@.dom() == old(self)@.dom(),
            forall|pid: Pid| #[trigger]
                final(self)@.contains_key(pid) ==> call_ensures(
                    f,
                    (pid, old(self).held()[pid]),
                    final(self).held()[pid],
                ),
    {
        assert forall|pid: Pid| #[trigger] entries(self.procs).contains_key(pid) implies call_requires(
            f,
            (pid, entries(self.procs)[pid]),
        ) by {
            assert(self@.contains_key(pid));
        }
        shards_alter_all(&mut self.procs, f);
        assert(self@.dom() =~= old(self)@.dom());
        assert forall|pid: Pid| #[trigger] self@.contains_key(pid) implies call_ensures(
            f,
            (pid, old(self).held()[pid]),
            self.held()[pid],
        ) by {
            assert(entries(self.procs).contains_key(pid));
        }
    }

    /// Calls `f` on every process, spread over the worker pool, and returns
    /// what it returned, one result for each process.
    pub fn map_concurrent<F, R>(&self, f: F) -> (results: Vec<R>) where
        F: Fn(Pid, &Process) -> R + Send + Sync,
        R: Send,

        requires
            forall|pid: Pid| #[trigger]
                self@.contains_key(pid) ==> call_requires(f, (pid, &self.held()[pid])),
        ensures
            covers(self.held(), f, results@),
    {
        assert forall|pid: Pid| #[trigger] entries(self.procs).contains_key(pid) implies call_requires(
            f,
            (pid, &entries(self.procs)[pid]),
        ) by {
            assert(self@.contains_key(pid));
        }
        shards_par_map(&self.procs, f)
    }
}

} // verus!
