//! What the accounting service does, stated on ledgers as plain values.

use vstd::prelude::*;
use crate::domain::allocation::AllocationFactory;
use crate::domain::allocation::AllocationView;
use crate::domain::error::AccountingError;
use crate::domain::process::Pid;
use crate::domain::process::total_cost;
use crate::domain::process::total_penalty;
use crate::domain::resource::ResourceType;
use crate::domain::resource::factory::ResourceFactory;

verus! {

/// The state of a repository: the ledger of each registered pid.
pub type Ledgers = Map<Pid, Seq<AllocationView>>;

/// The outcome of a request that changes the ledgers.
pub struct Outcome {
    pub ledgers: Ledgers,
    pub answer: Result<(), AccountingError>,
}

/// Registering `pid`: a fresh pid gets an empty ledger, a registered one is
/// turned down and nothing changes.
pub open spec fn spec_add_process(ledgers: Ledgers, pid: Pid) -> Outcome {
    if ledgers.contains_key(pid) {
        Outcome { ledgers, answer: Err(AccountingError::DuplicateProcess(pid)) }
    } else {
        Outcome { ledgers: ledgers.insert(pid, Seq::empty()), answer: Ok(()) }
    }
}

/// Allocating to `pid`: the kind is looked up first, then the process; only
/// where both are known does the ledger of `pid` grow, by one entry.
pub open spec fn spec_add_allocation(
    factory: ResourceFactory,
    ledgers: Ledgers,
    pid: Pid,
    usage_time: int,
    res: ResourceType,
    capacity: int,
) -> Outcome {
    if !factory.registered(res) {
        Outcome { ledgers, answer: Err(AccountingError::UnknownResourceKind(res)) }
    } else if !ledgers.contains_key(pid) {
        Outcome { ledgers, answer: Err(AccountingError::ProcessNotFound(pid)) }
    } else {
        Outcome {
            ledgers: ledgers.insert(
                pid,
                ledgers[pid].push(AllocationFactory::spec_create(factory, res, capacity, usage_time)),
            ),
            answer: Ok(()),
        }
    }
}

/// Cost and penalty of the process at `pid`, if there is one.
pub open spec fn spec_compute_process(ledgers: Ledgers, pid: Pid) -> Option<(int, int)> {
    if ledgers.contains_key(pid) {
        Some((total_cost(ledgers[pid]), total_penalty(ledgers[pid])))
    } else {
        None
    }
}

/// The line of a report for `pid`.
pub open spec fn report_line(ledgers: Ledgers, pid: Pid) -> (Pid, int, int) {
    (pid, total_cost(ledgers[pid]), total_penalty(ledgers[pid]))
}

/// The pids of a report, line by line.
pub open spec fn reported_pids(report: Seq<(Pid, i32, i32)>) -> Seq<Pid> {
    report.map_values(|line: (Pid, i32, i32)| line.0)
}

/// Whether `report` has one line for each registered pid, with its cost and
/// penalty, and no other line. The order of the lines is free.
pub open spec fn is_report(ledgers: Ledgers, report: Seq<(Pid, i32, i32)>) -> bool {
    &&& reported_pids(report).no_duplicates()
    &&& reported_pids(report).to_set() == ledgers.dom()
    &&& forall|i: int|
        0 <= i < report.len() ==> {
            let line = #[trigger] report[i];
            (line.0, line.1 as int, line.2 as int) == report_line(ledgers, line.0)
        }
}

/// Whether `totals` is the answer to a query for the process at `pid`.
pub open spec fn is_totals(ledgers: Ledgers, pid: Pid, totals: Option<(i32, i32)>) -> bool {
    match totals {
        Some(t) => spec_compute_process(ledgers, pid) == Some((t.0 as int, t.1 as int)),
        None => spec_compute_process(ledgers, pid) is None,
    }
}

/// Registering a pid twice: the second request is turned down as a
/// duplicate, and the ledgers stay as the first request left them.
pub proof fn law_add_process_twice(ledgers: Ledgers, pid: Pid)
    ensures
        ({
            let first = spec_add_process(ledgers, pid);
            let second = spec_add_process(first.ledgers, pid);
            &&& second.answer == Err::<(), AccountingError>(AccountingError::DuplicateProcess(pid))
            &&& second.ledgers == first.ledgers
            &&& second.ledgers[pid] == first.ledgers[pid]
        }),
{
}

/// A request that is turned down changes no ledger.
pub proof fn law_failure_changes_nothing(
    factory: ResourceFactory,
    ledgers: Ledgers,
    pid: Pid,
    usage_time: int,
    res: ResourceType,
    capacity: int,
)
    ensures
        spec_add_process(ledgers, pid).answer is Err ==> spec_add_process(ledgers, pid).ledgers
            == ledgers,
        spec_add_allocation(factory, ledgers, pid, usage_time, res, capacity).answer is Err
            ==> spec_add_allocation(factory, ledgers, pid, usage_time, res, capacity).ledgers
            == ledgers,
{
}

/// A query has one answer: asked twice of the same ledgers, it answers the
/// same.
pub proof fn law_compute_process_repeats(
    ledgers: Ledgers,
    pid: Pid,
    first: Option<(i32, i32)>,
    second: Option<(i32, i32)>,
)
    requires
        is_totals(ledgers, pid, first),
        is_totals(ledgers, pid, second),
    ensures
        first == second,
{
}

/// What happens to another process does not change the answer for `pid`.
pub proof fn law_compute_process_is_local(
    factory: ResourceFactory,
    ledgers: Ledgers,
    pid: Pid,
    other: Pid,
    usage_time: int,
    res: ResourceType,
    capacity: int,
)
    requires
        other != pid,
    ensures
        spec_compute_process(spec_add_process(ledgers, other).ledgers, pid) == spec_compute_process(
            ledgers,
            pid,
        ),
        spec_compute_process(
            spec_add_allocation(factory, ledgers, other, usage_time, res, capacity).ledgers,
            pid,
        ) == spec_compute_process(ledgers, pid),
{
}

/// The lines of a report are distinct, and a line is in it exactly if it is
/// the line of a registered pid.
pub proof fn lemma_report_lines(ledgers: Ledgers, report: Seq<(Pid, i32, i32)>)
    requires
        is_report(ledgers, report),
    ensures
        report.no_duplicates(),
        forall|line: (Pid, i32, i32)|
            report.contains(line) <==> ledgers.contains_key(line.0) && (
                line.0,
                line.1 as int,
                line.2 as int,
            ) == report_line(ledgers, line.0),
{
    let pids = reported_pids(report);
    assert forall|i: int, j: int| 0 <= i < report.len() && 0 <= j < report.len() && i != j implies report[i]
        != report[j] by {
        assert(pids[i] == report[i].0);
        assert(pids[j] == report[j].0);
    }
    assert forall|line: (Pid, i32, i32)|
        report.contains(line) <==> ledgers.contains_key(line.0) && (
            line.0,
            line.1 as int,
            line.2 as int,
        ) == report_line(ledgers, line.0) by {
        if report.contains(line) {
            let i = choose|i: int| 0 <= i < report.len() && report[i] == line;
            assert(pids[i] == line.0);
            assert(pids.contains(line.0));
            assert(pids.to_set().contains(line.0));
        }
        if ledgers.contains_key(line.0) && (line.0, line.1 as int, line.2 as int) == report_line(
            ledgers,
            line.0,
        ) {
            assert(pids.to_set().contains(line.0));
            assert(pids.contains(line.0));
            let i = choose|i: int| 0 <= i < pids.len() && pids[i] == line.0;
            assert(report[i].0 == line.0);
            assert(report[i] == line);
        }
    }
}

/// Two reports on the same ledgers hold the same lines the same number of
/// times, whatever the order in which each was put together: the report
/// computed on the worker pool is the report computed in sequence, as a
/// multiset, however many workers the pool has.
pub proof fn law_reports_agree(
    ledgers: Ledgers,
    sequential: Seq<(Pid, i32, i32)>,
    concurrent: Seq<(Pid, i32, i32)>,
)
    requires
        is_report(ledgers, sequential),
        is_report(ledgers, concurrent),
    ensures
        sequential.to_multiset() == concurrent.to_multiset(),
        sequential.len() == concurrent.len(),
{
    broadcast use vstd::seq_lib::to_multiset_contains;
    broadcast use vstd::seq_lib::to_multiset_len;

    lemma_report_lines(ledgers, sequential);
    lemma_report_lines(ledgers, concurrent);
    sequential.lemma_multiset_has_no_duplicates();
    concurrent.lemma_multiset_has_no_duplicates();
    assert forall|line: (Pid, i32, i32)|
        sequential.to_multiset().count(line) == concurrent.to_multiset().count(line) by {
        assert(sequential.contains(line) <==> concurrent.contains(line));
        assert(sequential.contains(line) <==> sequential.to_multiset().count(line) > 0);
        assert(concurrent.contains(line) <==> concurrent.to_multiset().count(line) > 0);
        assert(sequential.to_multiset().contains(line) ==> sequential.to_multiset().count(line)
            == 1);
        assert(concurrent.to_multiset().contains(line) ==> concurrent.to_multiset().count(line)
            == 1);
    }
    assert(sequential.to_multiset() =~= concurrent.to_multiset());
    assert(sequential.to_multiset().len() == sequential.len());
    assert(concurrent.to_multiset().len() == concurrent.len());
}

} // verus!
