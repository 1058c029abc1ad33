//! The registry of pair potentials by kinds.

use crate::potentials::PairPotential;
use vstd::prelude::*;

verus! {

/// The potentials registered for one unordered pair of kinds, in the order
/// of their registration.
#[derive(Debug)]
pub struct PairEntry {
    pub first: String,
    pub second: String,
    pub potentials: Vec<PairPotential>,
}

impl PairEntry {
    /// Whether the entry is that of the kinds `a` and `b`, in either order.
    pub open spec fn spec_concerns(&self, a: Seq<char>, b: Seq<char>) -> bool {
        (self.first@ == a && self.second@ == b) || (self.first@ == b && self.second@ == a)
    }

    /// Whether the entry is that of the kinds `a` and `b`, in either order.
    pub fn concerns(&self, a: &String, b: &String) -> (r: bool)
        ensures
            r == self.spec_concerns(a@, b@),
    {
        (self.first == *a && self.second == *b) || (self.first == *b && self.second == *a)
    }
}

/// The index of the first entry from `from` on that concerns the kinds `a`
/// and `b`, or the number of entries if there is none.
pub open spec fn first_entry_from(
    entries: Seq<PairEntry>,
    a: Seq<char>,
    b: Seq<char>,
    from: int,
) -> int
    decreases entries.len() - from,
{
    if from < 0 || from >= entries.len() {
        entries.len() as int
    } else if entries[from].spec_concerns(a, b) {
        from
    } else {
        first_entry_from(entries, a, b, from + 1)
    }
}

/// The potentials that the entries hold for the kinds `a` and `b`: those of
/// the first entry that concerns them, none if there is no such entry.
pub open spec fn potentials_in(entries: Seq<PairEntry>, a: Seq<char>, b: Seq<char>) -> Seq<
    PairPotential,
> {
    let k = first_entry_from(entries, a, b, 0);
    if k < entries.len() {
        entries[k].potentials@
    } else {
        Seq::empty()
    }
}

/// Where no entry in `[from, to)` concerns the kinds, the search from `from`
/// goes on at `to`.
pub proof fn lemma_first_entry_skips(
    entries: Seq<PairEntry>,
    a: Seq<char>,
    b: Seq<char>,
    from: int,
    to: int,
)
    requires
        0 <= from <= to <= entries.len(),
        forall|k: int| from <= k < to ==> !entries[k].spec_concerns(a, b),
    ensures
        first_entry_from(entries, a, b, from) == first_entry_from(entries, a, b, to),
    decreases to - from,
{
    if from < to {
        lemma_first_entry_skips(entries, a, b, from + 1, to);
    }
}

/// The search does not depend on the order in which the two kinds are
/// given.
pub proof fn lemma_first_entry_symmetric(
    entries: Seq<PairEntry>,
    a: Seq<char>,
    b: Seq<char>,
    from: int,
)
    ensures
        first_entry_from(entries, a, b, from) == first_entry_from(entries, b, a, from),
    decreases entries.len() - from,
{
    if 0 <= from < entries.len() && !entries[from].spec_concerns(a, b) {
        lemma_first_entry_symmetric(entries, a, b, from + 1);
    }
}

/// What the search returns is at most the number of entries, and not
/// before `from`; where it is an index, the entry there concerns the kinds.
pub proof fn lemma_first_entry_found(
    entries: Seq<PairEntry>,
    a: Seq<char>,
    b: Seq<char>,
    from: int,
)
    requires
        0 <= from <= entries.len(),
    ensures
        from <= first_entry_from(entries, a, b, from) <= entries.len(),
        first_entry_from(entries, a, b, from) < entries.len() ==> entries[first_entry_from(
            entries,
            a,
            b,
            from,
        )].spec_concerns(a, b),
    decreases entries.len() - from,
{
    if from < entries.len() && !entries[from].spec_concerns(a, b) {
        lemma_first_entry_found(entries, a, b, from + 1);
    }
}

/// The search sees the kinds of the entries only: two lists of entries with
/// the same kinds, entry by entry, are searched alike.
pub proof fn lemma_first_entry_same_kinds(
    left: Seq<PairEntry>,
    right: Seq<PairEntry>,
    a: Seq<char>,
    b: Seq<char>,
    from: int,
)
    requires
        left.len() == right.len(),
        forall|k: int|
            0 <= k < left.len() ==> left[k].first@ == right[k].first@ && left[k].second@
                == right[k].second@,
    ensures
        first_entry_from(left, a, b, from) == first_entry_from(right, a, b, from),
    decreases left.len() - from,
{
    if 0 <= from < left.len() && !left[from].spec_concerns(a, b) {
        lemma_first_entry_same_kinds(left, right, a, b, from + 1);
    }
}

/// With one more entry at the end, the search finds what it found before,
/// or else the new entry if that concerns the kinds.
pub proof fn lemma_first_entry_pushed(
    entries: Seq<PairEntry>,
    entry: PairEntry,
    a: Seq<char>,
    b: Seq<char>,
    from: int,
)
    requires
        0 <= from <= entries.len(),
    ensures
        first_entry_from(entries.push(entry), a, b, from) == (if first_entry_from(
            entries,
            a,
            b,
            from,
        ) < entries.len() || entry.spec_concerns(a, b) {
            first_entry_from(entries, a, b, from)
        } else {
            (entries.len() + 1) as int
        }),
    decreases entries.len() - from,
{
    let longer = entries.push(entry);
    if from < entries.len() {
        assert(longer[from] == entries[from]);
        if !entries[from].spec_concerns(a, b) {
            lemma_first_entry_pushed(entries, entry, a, b, from + 1);
        }
    } else {
        assert(longer[from] == entry);
        if !entry.spec_concerns(a, b) {
            assert(first_entry_from(longer, a, b, from + 1) == longer.len());
        }
    }
}

/// A mapping from unordered pairs of kinds to the potentials that act
/// between particles of these kinds.
#[derive(Debug)]
pub struct Interactions {
    entries: Vec<PairEntry>,
}

impl Interactions {
    /// The entries, in the order in which their pairs of kinds were first
    /// registered.
    pub closed spec fn spec_entries(&self) -> Seq<PairEntry> {
        self.entries@
    }

    /// The potentials registered for the kinds `a` and `b`, in the order of
    /// their registration.
    pub open spec fn spec_pairs(&self, a: Seq<char>, b: Seq<char>) -> Seq<PairPotential> {
        potentials_in(self.spec_entries(), a, b)
    }

    /// A registry without potentials.
    pub fn new() -> (r: Interactions)
        ensures
            r.spec_entries().len() == 0,
            forall|a: Seq<char>, b: Seq<char>| #[trigger]
                r.spec_pairs(a, b) == Seq::<PairPotential>::empty(),
    {
        Interactions { entries: Vec::new() }
    }

    /// The index of the first entry for the kinds `a` and `b`, or the number
    /// of entries.
    fn find(&self, a: &String, b: &String) -> (k: usize)
        ensures
            k == first_entry_from(self.spec_entries(), a@, b@, 0),
            k <= self.spec_entries().len(),
    {
        let mut k: usize = 0;
        while k < self.entries.len()
            invariant
                k <= self.entries.len(),
                forall|m: int| 0 <= m < k ==> !self.entries@[m].spec_concerns(a@, b@),
            decreases self.entries.len() - k,
        {
            if self.entries[k].concerns(a, b) {
                proof {
                    lemma_first_entry_skips(self.entries@, a@, b@, 0, k as int);
                }
                return k;
            }
            k = k + 1;
        }
        proof {
            lemma_first_entry_skips(self.entries@, a@, b@, 0, k as int);
        }
        k
    }

    /// Lookup is symmetric: the kinds `a` and `b` have the same potentials
    /// in either order.
    pub proof fn lemma_pairs_symmetric(&self, a: Seq<char>, b: Seq<char>)
        ensures
            self.spec_pairs(a, b) == self.spec_pairs(b, a),
    {
        lemma_first_entry_symmetric(self.spec_entries(), a, b, 0);
    }

    /// The potentials registered for the kinds `a` and `b`, which are those
    /// registered for `b` and `a`.
    pub fn pairs(&self, a: &String, b: &String) -> (r: &[PairPotential])
        ensures
            r@ == self.spec_pairs(a@, b@),
            r@ == self.spec_pairs(b@, a@),
    {
        proof {
            self.lemma_pairs_symmetric(a@, b@);
        }
        let k = self.find(a, b);
        if k < self.entries.len() {
            self.entries[k].potentials.as_slice()
        } else {
            &[]
        }
    }

    /// Registers `potential` for the kinds `a` and `b`: it becomes the last
    /// potential of that pair, whichever order the kinds are given in, and
    /// every other pair keeps its potentials.
    pub fn add_pair(&mut self, a: String, b: String, potential: PairPotential)
        ensures
            forall|x: Seq<char>, y: Seq<char>|
                #![trigger final(self).spec_pairs(x, y)]
                final(self).spec_pairs(x, y) == (if (x == a@ && y == b@) || (x == b@ && y == a@) {
                    old(self).spec_pairs(x, y).push(potential)
                } else {
                    old(self).spec_pairs(x, y)
                }),
    {
        let ghost before = self.entries@;
        let k = self.find(&a, &b);
        if k < self.entries.len() {
            self.entries[k].potentials.push(potential);
            proof {
                let after = self.entries@;
                assert forall|x: Seq<char>, y: Seq<char>|
                    potentials_in(after, x, y) == (if (x == a@ && y == b@) || (x == b@ && y
                        == a@) {
                        potentials_in(before, x, y).push(potential)
                    } else {
                        potentials_in(before, x, y)
                    }) by {
                    lemma_first_entry_same_kinds(before, after, x, y, 0);
                    lemma_first_entry_symmetric(before, a@, b@, 0);
                    lemma_first_entry_found(before, x, y, 0);
                    lemma_first_entry_found(before, a@, b@, 0);
                }
            }
        } else {
            let mut potentials: Vec<PairPotential> = Vec::new();
            potentials.push(potential);
            self.entries.push(PairEntry { first: a, second: b, potentials });
            proof {
                let after = self.entries@;
                assert forall|x: Seq<char>, y: Seq<char>|
                    potentials_in(after, x, y) == (if (x == a@ && y == b@) || (x == b@ && y
                        == a@) {
                        potentials_in(before, x, y).push(potential)
                    } else {
                        potentials_in(before, x, y)
                    }) by {
                    assert(after =~= before.push(after.last()));
                    assert(after.last().potentials@ =~= Seq::<PairPotential>::empty().push(
                        potential,
                    ));
                    lemma_first_entry_pushed(before, after.last(), x, y, 0);
                    lemma_first_entry_symmetric(before, a@, b@, 0);
                    lemma_first_entry_found(before, x, y, 0);
                }
            }
        }
    }
}

} // verus!
