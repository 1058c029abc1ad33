//! The traversal of the interacting pairs of a snapshot.
//!
//! Every observable that sums over pairs visits the same terms in the same
//! order: the pairs of particles `i < j` in ascending order of `i`, then of
//! `j`, and for each pair its potentials in the order of registration.

use crate::universe::system::Universe;
use vstd::prelude::*;

verus! {

/// One term of a sum over pairs: the potential of index `k` among those
/// that act between the particles `i` and `j`.
pub struct PairTerm {
    pub i: int,
    pub j: int,
    pub k: int,
}

impl PairTerm {
    /// Whether `self` comes before `other` in the traversal: the order is
    /// lexicographic in `(i, j, k)`.
    pub open spec fn precedes(self, other: PairTerm) -> bool {
        self.i < other.i || (self.i == other.i && (self.j < other.j || (self.j == other.j
            && self.k < other.k)))
    }
}

impl Universe {
    /// Whether `t` is a term of the snapshot: a pair of particles `i < j`
    /// and one of the potentials between them.
    pub open spec fn spec_is_term(&self, t: PairTerm) -> bool {
        &&& 0 <= t.i < t.j < self.spec_count()
        &&& 0 <= t.k < self.spec_pairs(t.i, t.j).len()
    }

    /// The terms of the pair `(i, j)`, one for each of its potentials.
    pub open spec fn spec_pair_terms(&self, i: int, j: int) -> Seq<PairTerm> {
        Seq::new(self.spec_pairs(i, j).len(), |k: int| PairTerm { i, j, k })
    }

    /// The terms of the pairs `(i, i + 1)`, ..., `(i, end - 1)`.
    pub open spec fn spec_row_terms(&self, i: int, end: int) -> Seq<PairTerm>
        decreases end - i,
    {
        if end <= i + 1 {
            Seq::empty()
        } else {
            self.spec_row_terms(i, end - 1) + self.spec_pair_terms(i, end - 1)
        }
    }

    /// The terms of all pairs whose first particle has an index below `end`.
    pub open spec fn spec_terms_below(&self, end: int) -> Seq<PairTerm>
        decreases end,
    {
        if end <= 0 {
            Seq::empty()
        } else {
            self.spec_terms_below(end - 1) + self.spec_row_terms(end - 1, self.spec_count())
        }
    }

    /// The terms that the traversal visits before it reaches the potential
    /// `k` of the pair `(i, j)`.
    pub open spec fn spec_terms_before(&self, i: int, j: int, k: int) -> Seq<PairTerm> {
        self.spec_terms_below(i) + self.spec_row_terms(i, j) + self.spec_pair_terms(i, j).take(k)
    }

    /// All terms of the snapshot, in the order of the traversal.
    pub open spec fn spec_terms(&self) -> Seq<PairTerm> {
        self.spec_terms_below(self.spec_count())
    }

    /// The traversal starts with nothing visited.
    pub proof fn lemma_terms_start(&self)
        ensures
            self.spec_terms_before(0, 1, 0) == Seq::<PairTerm>::empty(),
    {
        assert(self.spec_terms_before(0, 1, 0) =~= Seq::<PairTerm>::empty());
    }

    /// Visiting the potential `k` of the pair `(i, j)` appends its term: the
    /// terms visited after it are those visited before it, followed by the
    /// term itself.
    pub proof fn lemma_terms_next_potential(&self, i: int, j: int, k: int)
        requires
            0 <= k < self.spec_pairs(i, j).len(),
        ensures
            self.spec_terms_before(i, j, k + 1) == self.spec_terms_before(i, j, k).push(
                PairTerm { i, j, k },
            ),
            self.spec_terms_before(i, j, k + 1).len() > 0,
            self.spec_terms_before(i, j, k + 1).drop_last() == self.spec_terms_before(i, j, k),
            self.spec_terms_before(i, j, k + 1).last() == (PairTerm { i, j, k }),
    {
        let before = self.spec_terms_before(i, j, k);
        let t = PairTerm { i, j, k };
        assert(self.spec_terms_before(i, j, k + 1) =~= before.push(t));
        assert(before.push(t).drop_last() =~= before);
    }

    /// After the last potential of the pair `(i, j)` comes the pair
    /// `(i, j + 1)`.
    pub proof fn lemma_terms_next_pair(&self, i: int, j: int)
        requires
            i < j,
        ensures
            self.spec_terms_before(i, j, self.spec_pairs(i, j).len() as int)
                == self.spec_terms_before(i, j + 1, 0),
    {
        assert(self.spec_terms_before(i, j, self.spec_pairs(i, j).len() as int)
            =~= self.spec_terms_before(i, j + 1, 0));
    }

    /// After the last pair of the particle `i` come the pairs of the
    /// particle `i + 1`.
    pub proof fn lemma_terms_next_row(&self, i: int)
        requires
            0 <= i,
        ensures
            self.spec_terms_before(i, self.spec_count(), 0) == self.spec_terms_before(
                i + 1,
                i + 2,
                0,
            ),
    {
        let n = self.spec_count();
        assert(self.spec_terms_before(i, n, 0) =~= self.spec_terms_before(i + 1, i + 2, 0));
    }

    /// After the last particle the traversal has visited every term.
    pub proof fn lemma_terms_end(&self)
        ensures
            self.spec_terms_before(self.spec_count(), self.spec_count() + 1, 0)
                == self.spec_terms(),
    {
        let n = self.spec_count();
        assert(self.spec_terms_before(n, n + 1, 0) =~= self.spec_terms());
    }
}

} // verus!
