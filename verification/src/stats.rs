//! Run statistics: an additive accumulator of removed-entry count,
//! removed bytes and error count, merged bottom-up across recursive
//! cleaning calls.

use vstd::prelude::*;

verus! {

/// Mathematical model of a [`Stats`] value: the same three counters,
/// over unbounded integers.
#[verifier::ext_equal]
pub struct SpecStats {
    pub errors_total: int,
    pub removed_bytes: int,
    pub removed_count: int,
}

impl SpecStats {
    /// The identity of the merge operation: all counters zero.
    pub open spec fn zero() -> SpecStats {
        SpecStats { errors_total: 0, removed_bytes: 0, removed_count: 0 }
    }

    /// One recorded failure, nothing removed.
    pub open spec fn one_error() -> SpecStats {
        SpecStats { errors_total: 1, removed_bytes: 0, removed_count: 0 }
    }

    /// Field-wise sum: the monoid operation the walker merges with.
    pub open spec fn plus(self, other: SpecStats) -> SpecStats {
        SpecStats {
            errors_total: self.errors_total + other.errors_total,
            removed_bytes: self.removed_bytes + other.removed_bytes,
            removed_count: self.removed_count + other.removed_count,
        }
    }
}

/// The all-zero value is the identity of the merge operation.
pub proof fn lemma_plus_zero(s: SpecStats)
    ensures
        s.plus(SpecStats::zero()) == s,
        SpecStats::zero().plus(s) == s,
{
    assert(s.plus(SpecStats::zero()) =~= s);
    assert(SpecStats::zero().plus(s) =~= s);
}

/// The merge operation is associative.
pub proof fn lemma_plus_assoc(a: SpecStats, b: SpecStats, c: SpecStats)
    ensures
        a.plus(b).plus(c) == a.plus(b.plus(c)),
{
    assert(a.plus(b).plus(c) =~= a.plus(b.plus(c)));
}

/// The merge operation is commutative.
pub proof fn lemma_plus_comm(a: SpecStats, b: SpecStats)
    ensures
        a.plus(b) == b.plus(a),
{
    assert(a.plus(b) =~= b.plus(a));
}

/// Statistics of one cleaning run over one directory tree.
#[derive(Clone, Copy, Debug, PartialEq, Eq, Structural)]
pub struct Stats {
    pub errors_total: u64,
    pub removed_bytes: u64,
    pub removed_count: u64,
}

impl View for Stats {
    type V = SpecStats;

    open spec fn view(&self) -> SpecStats {
        SpecStats {
            errors_total: self.errors_total as int,
            removed_bytes: self.removed_bytes as int,
            removed_count: self.removed_count as int,
        }
    }
}

impl Stats {
    /// A fresh accumulator with every counter at zero.
    pub fn new() -> (s: Stats)
        ensures
            s@ == SpecStats::zero(),
    {
        Stats { errors_total: 0, removed_bytes: 0, removed_count: 0 }
    }

    /// Merges the statistics of a finished child call into this
    /// accumulator by field-wise addition.
    pub fn add(&mut self, stats: Stats)
        requires
            old(self).errors_total + stats.errors_total <= u64::MAX,
            old(self).removed_bytes + stats.removed_bytes <= u64::MAX,
            old(self).removed_count + stats.removed_count <= u64::MAX,
        ensures
            final(self)@ == old(self)@.plus(stats@),
    {
        self.errors_total = self.errors_total + stats.errors_total;
        self.removed_bytes = self.removed_bytes + stats.removed_bytes;
        self.removed_count = self.removed_count + stats.removed_count;
    }
}

} // verus!
