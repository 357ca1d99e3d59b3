//! Head counts of fleets by unit kind.

use crate::kinds::{kind_index, UnitKind, KIND_COUNT};
use crate::units::Unit;
use vstd::prelude::*;

verus! {

/// How many units of `kind` a fleet holds.
pub open spec fn count_of(fleet: Seq<Unit>, kind: UnitKind) -> nat
    decreases fleet.len(),
{
    if fleet.len() == 0 {
        0
    } else {
        count_of(fleet.drop_last(), kind) + if fleet.last().kind == kind {
            1nat
        } else {
            0nat
        }
    }
}

/// No two kinds share a position.
pub proof fn kind_index_is_injective(a: UnitKind, b: UnitKind)
    ensures
        kind_index(a) == kind_index(b) ==> a == b,
        0 <= kind_index(a) < KIND_COUNT,
{
}

/// A fleet holds no more units of one kind than it holds units.
pub proof fn count_within_size(fleet: Seq<Unit>, kind: UnitKind)
    ensures
        count_of(fleet, kind) <= fleet.len(),
    decreases fleet.len(),
{
    if fleet.len() > 0 {
        count_within_size(fleet.drop_last(), kind);
    }
}

/// A running count of units, by kind and in all.
#[derive(Debug, Clone)]
pub struct Tally {
    counts: Vec<u128>,
    total: u128,
}

impl Tally {
    /// There is one count per kind, and none exceeds the total.
    pub closed spec fn wf(&self) -> bool {
        &&& self.counts@.len() == KIND_COUNT
        &&& forall|i: int| 0 <= i < KIND_COUNT ==> self.counts@[i] <= self.total
    }

    /// The number of units of `kind` counted so far.
    pub closed spec fn tallied(&self, kind: UnitKind) -> nat {
        self.counts@[kind_index(kind)] as nat
    }

    /// The number of units counted so far.
    pub closed spec fn headcount(&self) -> nat {
        self.total as nat
    }

    /// A tally in which nothing has been counted.
    pub fn new() -> (tally: Tally)
        ensures
            tally.wf(),
            tally.headcount() == 0,
            forall|kind: UnitKind| tally.tallied(kind) == 0,
    {
        let mut counts: Vec<u128> = Vec::new();
        let mut i: usize = 0;
        while i < KIND_COUNT
            invariant
                i <= KIND_COUNT,
                counts@.len() == i,
                forall|j: int| 0 <= j < i ==> counts@[j] == 0,
            decreases KIND_COUNT - i,
        {
            counts.push(0);
            i = i + 1;
        }
        proof {
            assert forall|kind: UnitKind| counts@[kind_index(kind)] == 0 by {
                kind_index_is_injective(kind, kind);
            }
        }
        Tally { counts, total: 0 }
    }

    /// Counts every unit of `fleet`.
    pub fn add_fleet(&mut self, fleet: &Vec<Unit>)
        requires
            old(self).wf(),
            old(self).headcount() + fleet.len() <= u128::MAX,
        ensures
            final(self).wf(),
            final(self).headcount() == old(self).headcount() + fleet.len(),
            forall|kind: UnitKind|
                final(self).tallied(kind) == old(self).tallied(kind) + count_of(fleet@, kind),
    {
        let mut i: usize = 0;
        while i < fleet.len()
            invariant
                i <= fleet.len(),
                self.wf(),
                old(self).headcount() + fleet.len() <= u128::MAX,
                self.headcount() == old(self).headcount() + i,
                forall|kind: UnitKind|
                    self.tallied(kind) == old(self).tallied(kind) + count_of(
                        fleet@.take(i as int),
                        kind,
                    ),
            decreases fleet.len() - i,
        {
            let slot: usize = fleet[i].kind.index();
            let ghost before = *self;
            let count: u128 = self.counts[slot];
            self.total = self.total + 1;
            self.counts[slot] = count + 1;
            proof {
                assert(fleet@.take(i as int + 1).drop_last() == fleet@.take(i as int));
                assert(fleet@.take(i as int + 1).last() == fleet@[i as int]);
                assert forall|kind: UnitKind|
                    self.tallied(kind) == old(self).tallied(kind) + count_of(
                        fleet@.take(i as int + 1),
                        kind,
                    ) by {
                    kind_index_is_injective(kind, fleet@[i as int].kind);
                    assert(before.tallied(kind) == old(self).tallied(kind) + count_of(
                        fleet@.take(i as int),
                        kind,
                    ));
                }
            }
            i = i + 1;
        }
        proof {
            assert(fleet@.take(i as int) == fleet@);
        }
    }

    /// The head count of one fleet.
    pub fn of(fleet: &Vec<Unit>) -> (tally: Tally)
        ensures
            tally.wf(),
            tally.headcount() == fleet.len(),
            forall|kind: UnitKind| tally.tallied(kind) == count_of(fleet@, kind),
    {
        let mut tally: Tally = Tally::new();
        tally.add_fleet(fleet);
        tally
    }

    /// The number of units of `kind` counted so far.
    pub fn count(&self, kind: UnitKind) -> (n: u128)
        ensures
            self.wf() ==> n == self.tallied(kind),
    {
        let slot: usize = kind.index();
        if slot < self.counts.len() {
            self.counts[slot]
        } else {
            0
        }
    }

    /// The number of units counted so far.
    pub fn total(&self) -> (n: u128)
        ensures
            n == self.headcount(),
    {
        self.total
    }
}

} // verus!
