//! The child-process table: tracks the handles of spawned children by an
//! opaque identifier and reclaims terminated ones without blocking.  An
//! entry leaves the table exactly once, when it is observed terminated.

use vstd::prelude::*;

verus! {

/// The identifiers that survive a reap: those whose position was not
/// observed terminated, in their original order.
pub open spec fn spec_retained(ids: Seq<u64>, terminated: Seq<bool>) -> Seq<u64>
    decreases ids.len(),
{
    if ids.len() == 0 {
        Seq::<u64>::empty()
    } else if terminated[0] {
        spec_retained(ids.skip(1), terminated.skip(1))
    } else {
        seq![ids[0]].add(spec_retained(ids.skip(1), terminated.skip(1)))
    }
}

/// How many positions were observed terminated.
pub open spec fn spec_count_true(s: Seq<bool>) -> int
    decreases s.len(),
{
    if s.len() == 0 {
        0
    } else {
        (if s[0] { 1int } else { 0int }) + spec_count_true(s.skip(1))
    }
}

/// A reap never grows the table: it keeps exactly the entries not
/// observed terminated, one fewer for each termination observed.
pub proof fn lemma_retained_len(ids: Seq<u64>, terminated: Seq<bool>)
    requires
        terminated.len() == ids.len(),
    ensures
        spec_retained(ids, terminated).len() == ids.len() - spec_count_true(terminated),
        spec_retained(ids, terminated).len() <= ids.len(),
    decreases ids.len(),
{
    if ids.len() > 0 {
        lemma_retained_len(ids.skip(1), terminated.skip(1));
    }
}

/// The table of live spawned-process handles.
pub struct ChildTable {
    pub ids: Vec<u64>,
}

impl ChildTable {
    /// An empty table.
    pub fn new() -> (r: ChildTable)
        ensures
            r.ids@.len() == 0,
    {
        ChildTable { ids: Vec::new() }
    }

    /// How many children are tracked.
    pub fn len(&self) -> (r: usize)
        ensures
            r == self.ids@.len(),
    {
        self.ids.len()
    }

    /// Reclaims the children observed terminated: `terminated` reports,
    /// for each tracked entry in order, whether a non-blocking check saw
    /// it exit.  Exactly the entries not observed terminated stay, in
    /// their original order.
    pub fn reap(&mut self, terminated: &Vec<bool>)
        requires
            terminated@.len() == old(self).ids@.len(),
        ensures
            final(self).ids@ == spec_retained(old(self).ids@, terminated@),
    {
        let ghost ids0 = self.ids@;
        let n = self.ids.len();
        let mut kept: Vec<u64> = Vec::new();
        let mut i: usize = 0;
        proof {
            assert(ids0.skip(0) =~= ids0);
            assert(terminated@.skip(0) =~= terminated@);
        }
        while i < n
            invariant
                i <= n == ids0.len(),
                terminated@.len() == n,
                self.ids@ == ids0,
                spec_retained(ids0, terminated@) =~= kept@.add(spec_retained(
                    ids0.skip(i as int),
                    terminated@.skip(i as int),
                )),
            decreases n - i,
        {
            proof {
                assert(ids0.skip(i as int).skip(1) =~= ids0.skip(i + 1));
                assert(terminated@.skip(i as int).skip(1) =~= terminated@.skip(i + 1));
            }
            if !terminated[i] {
                let ghost kprev = kept@;
                kept.push(self.ids[i]);
                proof {
                    assert(kprev.push(ids0[i as int]).add(spec_retained(
                        ids0.skip(i + 1),
                        terminated@.skip(i + 1),
                    )) =~= kprev.add(seq![ids0[i as int]].add(spec_retained(
                        ids0.skip(i + 1),
                        terminated@.skip(i + 1),
                    ))));
                }
            }
            i = i + 1;
        }
        proof {
            assert(ids0.skip(n as int) =~= Seq::<u64>::empty());
            assert(terminated@.skip(n as int) =~= Seq::<bool>::empty());
            assert(kept@.add(Seq::<u64>::empty()) =~= kept@);
        }
        self.ids = kept;
    }

    /// Tracks a newly spawned child.
    pub fn track(&mut self, id: u64)
        ensures
            final(self).ids@ == old(self).ids@.push(id),
    {
        self.ids.push(id);
    }
}

} // verus!
