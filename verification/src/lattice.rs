//! The shared occupancy array: one non-negative count per cell, whose sum
//! stays equal to the number of walkers across every accepted move.

use vstd::prelude::*;

verus! {

/// The sum of a sequence of occupancy counts, as a mathematical integer.
pub open spec fn sum_of(s: Seq<usize>) -> int
    decreases s.len(),
{
    if s.len() == 0 {
        0
    } else {
        sum_of(s.drop_last()) + s.last()
    }
}

/// `after` is `before` with one walker moved from cell `from` to cell `to`:
/// exactly those two counts change, by -1 and +1, and every other cell is
/// untouched.
pub open spec fn moved_counts(before: Seq<usize>, after: Seq<usize>, from: int, to: int) -> bool {
    &&& after.len() == before.len()
    &&& after[from] == before[from] - 1
    &&& after[to] == before[to] + 1
    &&& forall|j: int|
        0 <= j < before.len() && j != from && j != to ==> after[j] == before[j]
}

proof fn lemma_sum_nonneg(s: Seq<usize>)
    ensures
        sum_of(s) >= 0,
    decreases s.len(),
{
    if s.len() > 0 {
        lemma_sum_nonneg(s.drop_last());
    }
}

proof fn lemma_sum_push(s: Seq<usize>, v: usize)
    ensures
        sum_of(s.push(v)) == sum_of(s) + v,
{
    assert(s.push(v).drop_last() =~= s);
    assert(s.push(v).last() == v);
}

proof fn lemma_sum_update(s: Seq<usize>, i: int, v: usize)
    requires
        0 <= i < s.len(),
    ensures
        sum_of(s.update(i, v)) == sum_of(s) - s[i] + v,
    decreases s.len(),
{
    if i == s.len() - 1 {
        assert(s.update(i, v).drop_last() =~= s.drop_last());
        assert(s.update(i, v).last() == v);
    } else {
        assert(s.update(i, v).drop_last() =~= s.drop_last().update(i, v));
        assert(s.update(i, v).last() == s.last());
        lemma_sum_update(s.drop_last(), i, v);
    }
}

proof fn lemma_elem_le_sum(s: Seq<usize>, i: int)
    requires
        0 <= i < s.len(),
    ensures
        s[i] <= sum_of(s),
    decreases s.len(),
{
    if i == s.len() - 1 {
        lemma_sum_nonneg(s.drop_last());
    } else {
        lemma_elem_le_sum(s.drop_last(), i);
        assert(s.drop_last()[i] == s[i]);
    }
}

proof fn lemma_two_elems_le_sum(s: Seq<usize>, i: int, j: int)
    requires
        0 <= i < s.len(),
        0 <= j < s.len(),
        i != j,
    ensures
        s[i] + s[j] <= sum_of(s),
    decreases s.len(),
{
    if j == s.len() - 1 {
        lemma_elem_le_sum(s.drop_last(), i);
    } else if i == s.len() - 1 {
        lemma_elem_le_sum(s.drop_last(), j);
    } else {
        lemma_two_elems_le_sum(s.drop_last(), i, j);
    }
}

proof fn lemma_sum_take_le(s: Seq<usize>, i: int)
    requires
        0 <= i <= s.len(),
    ensures
        sum_of(s.take(i)) <= sum_of(s),
    decreases s.len() - i,
{
    if i == s.len() {
        assert(s.take(i) =~= s);
    } else {
        assert(s.take(i + 1).drop_last() =~= s.take(i));
        assert(s.take(i + 1).last() == s[i]);
        lemma_sum_take_le(s, i + 1);
    }
}

/// Conservation preserves the population: a single accepted move — one
/// count down by one, the adjacent count up by one, every other count
/// untouched — leaves the sum of all occupancy counts exactly as it was.
pub proof fn lemma_move_preserves_sum(before: Seq<usize>, after: Seq<usize>, from: int, to: int)
    requires
        0 <= from < before.len(),
        0 <= to < before.len(),
        from != to,
        before[from] >= 1,
        moved_counts(before, after, from, to),
    ensures
        sum_of(after) == sum_of(before),
{
    let mid = before.update(from, (before[from] - 1) as usize);
    assert(after =~= mid.update(to, after[to]));
    lemma_sum_update(before, from, (before[from] - 1) as usize);
    lemma_sum_update(mid, to, after[to]);
}

/// The lattice of occupancy counts. All `walkers` walkers start in cell 0;
/// an accepted move shifts one walker to an adjacent cell, so the sum of all
/// counts equals `walkers` whenever no move is half-applied.
pub struct Lattice {
    counts: Vec<usize>,
    walkers: usize,
}

impl Lattice {
    /// The occupancy counts, cell by cell.
    pub closed spec fn counts_seq(&self) -> Seq<usize> {
        self.counts@
    }

    /// The number of walkers the lattice was created for.
    pub closed spec fn walker_count(&self) -> int {
        self.walkers as int
    }

    /// The lattice is consistent: at least one cell, and the counts sum to
    /// the walker population.
    pub open spec fn wf(&self) -> bool {
        &&& self.counts_seq().len() >= 1
        &&& sum_of(self.counts_seq()) == self.walker_count()
    }

    /// A fresh lattice of `cells` cells with all `walkers` walkers in cell 0.
    pub fn new(cells: usize, walkers: usize) -> (r: Lattice)
        requires
            cells >= 1,
        ensures
            r.wf(),
            r.counts_seq().len() == cells,
            r.counts_seq()[0] == walkers,
            forall|j: int| 1 <= j < cells ==> r.counts_seq()[j] == 0,
            r.walker_count() == walkers,
    {
        let mut counts: Vec<usize> = Vec::new();
        counts.push(walkers);
        proof {
            lemma_sum_push(Seq::<usize>::empty(), walkers);
            assert(counts@ =~= Seq::<usize>::empty().push(walkers));
        }
        while counts.len() < cells
            invariant
                1 <= counts@.len() <= cells,
                counts@[0] == walkers,
                forall|j: int| 1 <= j < counts@.len() ==> counts@[j] == 0,
                sum_of(counts@) == walkers,
            decreases cells - counts.len(),
        {
            proof {
                lemma_sum_push(counts@, 0);
            }
            counts.push(0);
        }
        Lattice { counts, walkers }
    }

    /// The number of cells.
    pub fn len(&self) -> (r: usize)
        ensures
            r == self.counts_seq().len(),
    {
        self.counts.len()
    }

    /// The occupancy count of cell `i`.
    pub fn get(&self, i: usize) -> (r: usize)
        requires
            i < self.counts_seq().len(),
        ensures
            r == self.counts_seq()[i as int],
    {
        self.counts[i]
    }

    /// Applies one accepted move as a paired update: the count at `from`
    /// drops by one and the count at `to` rises by one; no other cell and
    /// not the walker population changes.
    pub fn apply_move(&mut self, from: usize, to: usize)
        requires
            old(self).wf(),
            from < old(self).counts_seq().len(),
            to < old(self).counts_seq().len(),
            from != to,
            old(self).counts_seq()[from as int] >= 1,
        ensures
            final(self).wf(),
            final(self).walker_count() == old(self).walker_count(),
            moved_counts(
                old(self).counts_seq(),
                final(self).counts_seq(),
                from as int,
                to as int,
            ),
    {
        proof {
            lemma_two_elems_le_sum(self.counts@, from as int, to as int);
        }
        let c_from = self.counts[from];
        let c_to = self.counts[to];
        proof {
            lemma_sum_update(self.counts@, from as int, (c_from - 1) as usize);
            lemma_sum_update(
                self.counts@.update(from as int, (c_from - 1) as usize),
                to as int,
                (c_to + 1) as usize,
            );
        }
        self.counts.set(from, c_from - 1);
        self.counts.set(to, c_to + 1);
    }

    /// A copy of the full occupancy sequence at a single observable instant.
    /// Every count is non-negative, and on a consistent lattice the counts
    /// sum to the walker population.
    pub fn snapshot(&self) -> (r: Vec<usize>)
        ensures
            r@ == self.counts_seq(),
            forall|j: int| 0 <= j < r@.len() ==> r@[j] >= 0,
            self.wf() ==> sum_of(r@) == self.walker_count(),
    {
        let mut out: Vec<usize> = Vec::new();
        let mut i: usize = 0;
        while i < self.counts.len()
            invariant
                i <= self.counts@.len(),
                out@ =~= self.counts@.take(i as int),
            decreases self.counts@.len() - i,
        {
            out.push(self.counts[i]);
            proof {
                assert(out@ =~= self.counts@.take(i + 1 as int));
            }
            i = i + 1;
        }
        proof {
            assert(out@ =~= self.counts@);
        }
        out
    }

    /// The sum of all occupancy counts; on a consistent lattice this is
    /// exactly the walker population.
    pub fn total(&self) -> (r: usize)
        requires
            self.wf(),
        ensures
            r == sum_of(self.counts_seq()),
            r == self.walker_count(),
    {
        let mut acc: usize = 0;
        let mut i: usize = 0;
        while i < self.counts.len()
            invariant
                i <= self.counts@.len(),
                acc == sum_of(self.counts@.take(i as int)),
                sum_of(self.counts@) == self.walker_count(),
                self.walker_count() <= usize::MAX,
            decreases self.counts@.len() - i,
        {
            proof {
                assert(self.counts@.take(i + 1 as int).drop_last() =~= self.counts@.take(
                    i as int,
                ));
                assert(self.counts@.take(i + 1 as int).last() == self.counts@[i as int]);
                lemma_sum_take_le(self.counts@, i + 1 as int);
                lemma_sum_nonneg(self.counts@.take(i + 1 as int));
            }
            acc = acc + self.counts[i];
            i = i + 1;
        }
        proof {
            assert(self.counts@.take(self.counts@.len() as int) =~= self.counts@);
        }
        acc
    }
}

} // verus!
