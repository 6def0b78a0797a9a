//! A process and its ledger of allocations.

use vstd::prelude::*;
use super::allocation::Allocation;
use super::allocation::AllocationView;

verus! {

/// Identifies a process; unique within a repository.
pub type Pid = u32;

/// The cost of a ledger: the sum of the costs of its allocations.
pub open spec fn total_cost(ledger: Seq<AllocationView>) -> int
    decreases ledger.len(),
{
    if ledger.len() == 0 {
        0
    } else {
        total_cost(ledger.drop_last()) + ledger.last().cost
    }
}

/// The penalty of a ledger: the sum of the penalties of its allocations.
pub open spec fn total_penalty(ledger: Seq<AllocationView>) -> int
    decreases ledger.len(),
{
    if ledger.len() == 0 {
        0
    } else {
        total_penalty(ledger.drop_last()) + ledger.last().penalty
    }
}

/// Whether a sum can be held in an `i32`.
pub open spec fn summable(amount: int) -> bool {
    i32::MIN <= amount <= i32::MAX
}

/// Whether the totals of a ledger can be summed up, allocation by
/// allocation, within the machine's limits.
pub open spec fn ledger_fits(ledger: Seq<AllocationView>) -> bool {
    forall|k: int|
        #![trigger ledger.take(k)]
        0 <= k <= ledger.len() ==> summable(total_cost(ledger.take(k))) && summable(
            total_penalty(ledger.take(k)),
        )
}

/// A ledger with one more entry fits if the ledger did and the new totals
/// can be held.
pub proof fn lemma_ledger_fits_push(ledger: Seq<AllocationView>, entry: AllocationView)
    requires
        ledger_fits(ledger),
    ensures
        total_cost(ledger.push(entry)) == total_cost(ledger) + entry.cost,
        total_penalty(ledger.push(entry)) == total_penalty(ledger) + entry.penalty,
        ledger_fits(ledger.push(entry)) <==> summable(total_cost(ledger) + entry.cost) && summable(
            total_penalty(ledger) + entry.penalty,
        ),
{
    let longer = ledger.push(entry);
    assert(longer.drop_last() =~= ledger);
    assert(longer.take(longer.len() as int) =~= longer);
    assert forall|k: int| 0 <= k <= ledger.len() implies #[trigger] longer.take(k) == ledger.take(
        k,
    ) by {
        assert(longer.take(k) =~= ledger.take(k));
    }
    if summable(total_cost(ledger) + entry.cost) && summable(total_penalty(ledger) + entry.penalty) {
        assert forall|k: int| 0 <= k <= longer.len() implies summable(
            total_cost(#[trigger] longer.take(k)),
        ) && summable(total_penalty(longer.take(k))) by {
            if k <= ledger.len() {
                assert(longer.take(k) == ledger.take(k));
            }
        }
    }
}

/// A process: its pid and the ledger of what was allocated to it. The ledger
/// only grows, and its totals can always be reported.
pub struct Process {
    pid: Pid,
    allocations: Vec<Allocation>,
}

impl View for Process {
    type V = Seq<AllocationView>;

    /// The ledger, oldest allocation first.
    closed spec fn view(&self) -> Seq<AllocationView> {
        self.allocations@.map_values(|a: Allocation| a@)
    }
}

/// Two processes are the same process if they have the same pid, whatever
/// their ledgers hold.
impl PartialEq for Process {
    fn eq(&self, other: &Self) -> (same: bool) {
        self.pid == other.pid
    }
}

impl Eq for Process {

}

impl vstd::std_specs::cmp::PartialEqSpecImpl for Process {
    open spec fn obeys_eq_spec() -> bool {
        true
    }

    open spec fn eq_spec(&self, other: &Self) -> bool {
        self.id() == other.id()
    }
}

impl Process {
    #[verifier::type_invariant]
    spec fn in_range(self) -> bool {
        ledger_fits(self@)
    }

    pub closed spec fn id(&self) -> Pid {
        self.pid
    }

    /// A process with an empty ledger.
    pub fn new(pid: Pid) -> (process: Self)
        ensures
            process.id() == pid,
            process@ == Seq::<AllocationView>::empty(),
    {
        let process = Process { pid, allocations: Vec::new() };
        assert(process@ =~= Seq::<AllocationView>::empty());
        process
    }

    pub fn pid(&self) -> (pid: Pid)
        ensures
            pid == self.id(),
    {
        self.pid
    }

    /// Tells whether `add_allocation` may be called with `allocation`.
    pub fn has_room_for(&self, allocation: &Allocation) -> (ok: bool)
        ensures
            ok == ledger_fits(self@.push(allocation@)),
    {
        proof {
            use_type_invariant(self);
            lemma_ledger_fits_push(self@, allocation@);
        }
        let cost: i64 = self.compute_cost() as i64 + allocation.compute_cost() as i64;
        let penalty: i64 = self.compute_penalty() as i64 + allocation.compute_penalty() as i64;
        -2_147_483_648 <= cost && cost <= 2_147_483_647 && -2_147_483_648 <= penalty && penalty
            <= 2_147_483_647
    }

    /// Appends to the ledger.
    pub fn add_allocation(&mut self, allocation: Allocation)
        requires
            ledger_fits(old(self)@.push(allocation@)),
        ensures
            final(self)@ == old(self)@.push(allocation@),
            final(self).id() == old(self).id(),
    {
        let mut emptied = Process { pid: self.pid, allocations: Vec::new() };
        assert(emptied@ =~= Seq::<AllocationView>::empty());
        assert(emptied@.take(0) =~= emptied@);
        std::mem::swap(self, &mut emptied);
        let Process { pid, allocations } = emptied;
        let mut allocations = allocations;
        allocations.push(allocation);
        assert(allocations@.map_values(|a: Allocation| a@) =~= old(self)@.push(allocation@));
        *self = Process { pid, allocations };
    }

    /// The sum of the costs over the ledger.
    pub fn compute_cost(&self) -> (cost: i32)
        ensures
            cost == total_cost(self@),
    {
        proof {
            use_type_invariant(self);
        }
        let mut cost: i32 = 0;
        let mut i: usize = 0;
        while i < self.allocations.len()
            invariant
                i <= self.allocations.len(),
                self@.len() == self.allocations.len(),
                ledger_fits(self@),
                cost == total_cost(self@.take(i as int)),
            decreases self.allocations.len() - i,
        {
            let next: i32 = self.allocations[i].compute_cost();
            proof {
                let upto = self@.take(i + 1);
                assert(upto.drop_last() =~= self@.take(i as int));
                assert(upto.last() == self.allocations[i as int]@);
            }
            cost = cost + next;
            i = i + 1;
        }
        assert(self@.take(i as int) =~= self@);
        cost
    }

    /// The sum of the penalties over the ledger.
    pub fn compute_penalty(&self) -> (penalty: i32)
        ensures
            penalty == total_penalty(self@),
    {
        proof {
            use_type_invariant(self);
        }
        let mut penalty: i32 = 0;
        let mut i: usize = 0;
        while i < self.allocations.len()
            invariant
                i <= self.allocations.len(),
                self@.len() == self.allocations.len(),
                ledger_fits(self@),
                penalty == total_penalty(self@.take(i as int)),
            decreases self.allocations.len() - i,
        {
            let next: i32 = self.allocations[i].compute_penalty();
            proof {
                let upto = self@.take(i + 1);
                assert(upto.drop_last() =~= self@.take(i as int));
                assert(upto.last() == self.allocations[i as int]@);
            }
            penalty = penalty + next;
            i = i + 1;
        }
        assert(self@.take(i as int) =~= self@);
        penalty
    }
}

} // verus!
