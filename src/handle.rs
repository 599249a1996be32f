//! Book-keeping of the kernel handles that the library holds open.
//!
//! Each handle gets an identifier that is never reused, and the ledger knows
//! which identifiers are still open; leak checks compare its count against a
//! baseline.
use std::collections::HashSet;
use vstd::prelude::*;
use vstd::std_specs::hash::group_hash_axioms;

verus! {

broadcast use group_hash_axioms;

/// The identifiers handed out so far and the ones still open.
pub struct HandleLedger {
    open: HashSet<u64>,
    next_id: u64,
}

impl View for HandleLedger {
    /// The next identifier to hand out, and the identifiers still open.
    type V = (u64, Set<u64>);

    closed spec fn view(&self) -> (u64, Set<u64>) {
        (self.next_id, self.open@)
    }
}

/// Every open identifier was handed out before.
pub open spec fn ledger_wf(v: (u64, Set<u64>)) -> bool {
    forall|id: u64| #[trigger] v.1.contains(id) ==> id < v.0
}

/// One move of a ledger: a handle opens under the next identifier, or one
/// identifier is closed.
pub open spec fn ledger_step(a: (u64, Set<u64>), b: (u64, Set<u64>)) -> bool {
    ||| a.0 < u64::MAX && b == (((a.0 + 1) as u64), a.1.insert(a.0))
    ||| b.0 == a.0 && exists|id: u64| b.1 == #[trigger] a.1.remove(id)
}

impl HandleLedger {
    pub open spec fn wf(&self) -> bool {
        ledger_wf(self@)
    }

    /// A ledger with nothing handed out.
    pub fn new() -> (l: HandleLedger)
        ensures
            l.wf(),
            l@ == (0u64, Set::<u64>::empty()),
    {
        HandleLedger { open: HashSet::new(), next_id: 0 }
    }

    /// Records a newly opened handle and returns its identifier; `None` once
    /// every identifier has been handed out.
    pub fn open_handle(&mut self) -> (id: Option<u64>)
        requires
            old(self).wf(),
        ensures
            final(self).wf(),
            old(self)@.0 == u64::MAX ==> id is None && final(self)@ == old(self)@,
            old(self)@.0 < u64::MAX ==> {
                &&& id == Some(old(self)@.0)
                &&& !old(self)@.1.contains(old(self)@.0)
                &&& final(self)@ == (((old(self)@.0 + 1) as u64), old(self)@.1.insert(old(self)@.0))
            },
            ledger_step(old(self)@, final(self)@) || final(self)@ == old(self)@,
    {
        if self.next_id == u64::MAX {
            return None;
        }
        let id = self.next_id;
        self.open.insert(id);
        self.next_id = id + 1;
        assert(self@.1 == old(self)@.1.insert(id));
        assert forall|x: u64| #[trigger] self@.1.contains(x) implies x < self@.0 by {
            if x != id {
                assert(old(self)@.1.contains(x));
            }
        }
        Some(id)
    }

    /// Records that handle `id` was closed; says whether it was open.
    pub fn close_handle(&mut self, id: u64) -> (was_open: bool)
        requires
            old(self).wf(),
        ensures
            final(self).wf(),
            was_open == old(self)@.1.contains(id),
            final(self)@ == (old(self)@.0, old(self)@.1.remove(id)),
            ledger_step(old(self)@, final(self)@),
    {
        let r = self.open.remove(&id);
        assert(self@.1 == old(self)@.1.remove(id));
        r
    }

    /// How many handles are open.
    pub fn num_open_handles(&self) -> (n: usize)
        ensures
            n == self@.1.len(),
    {
        self.open.len()
    }
}

/// Over any run of a ledger, the open identifiers are those open at the start
/// or handed out during the run.
proof fn lemma_run_bounds(run: Seq<(u64, Set<u64>)>, k: int)
    requires
        0 <= k < run.len(),
        forall|i: int| 0 <= i < run.len() - 1 ==> ledger_step(#[trigger] run[i], run[i + 1]),
    ensures
        run[k].0 >= run[0].0,
        forall|id: u64| #[trigger]
            run[k].1.contains(id) ==> run[0].1.contains(id) || (run[0].0 <= id < run[k].0),
    decreases k,
{
    if k > 0 {
        lemma_run_bounds(run, k - 1);
        assert(ledger_step(run[k - 1], run[k]));
        if !(run[k - 1].0 < u64::MAX && run[k] == (((run[k - 1].0 + 1) as u64), run[k - 1].1.insert(
            run[k - 1].0,
        ))) {
            let id = choose|id: u64| run[k].1 == #[trigger] run[k - 1].1.remove(id);
            assert(run[k].1 == run[k - 1].1.remove(id));
        }
    }
}

/// Leak check: once every handle opened since a baseline has been closed,
/// and the handles open at the baseline still are, the open handles, and so
/// their count, are those of the baseline.
pub proof fn lemma_count_returns_to_baseline(run: Seq<(u64, Set<u64>)>)
    requires
        run.len() >= 1,
        forall|i: int| 0 <= i < run.len() - 1 ==> ledger_step(#[trigger] run[i], run[i + 1]),
        run[0].1.subset_of(run.last().1),
        forall|id: u64|
            run[0].0 <= id < run.last().0 ==> !(#[trigger] run.last().1.contains(id)),
    ensures
        run.last().1 == run[0].1,
        run.last().1.len() == run[0].1.len(),
{
    lemma_run_bounds(run, run.len() - 1);
    assert(run.last().1 =~= run[0].1);
}

} // verus!
