use vstd::prelude::*;
use crate::types::{InscriptionId, OutPoint, SatPoint};

verus! {

/// Does the entry list `s` hold an entry for the output reference `o`?
pub open spec fn seq_has_key(s: Seq<(OutPoint, u64)>, o: OutPoint) -> bool {
    exists|i: int| 0 <= i < s.len() && s[i].0 == o
}

/// The wallet's currently known spendable outputs: each entry maps an
/// output reference to its value in satoshis. Keys are unique.
#[derive(Clone, PartialEq, Eq, Debug)]
pub struct UnspentOutputs {
    pub entries: Vec<(OutPoint, u64)>,
}

impl UnspentOutputs {
    /// Well-formed: one entry per output reference.
    pub open spec fn wf(self) -> bool {
        forall|i: int, j: int|
            0 <= i < j < self.entries@.len() ==> self.entries@[i].0 != self.entries@[j].0
    }

    pub open spec fn spec_contains_key(self, o: OutPoint) -> bool {
        seq_has_key(self.entries@, o)
    }

    pub fn new() -> (r: Self)
        ensures
            r.entries@ == Seq::<(OutPoint, u64)>::empty(),
            r.wf(),
    {
        UnspentOutputs { entries: Vec::new() }
    }

    pub fn contains_key(&self, o: &OutPoint) -> (r: bool)
        ensures
            r == self.spec_contains_key(*o),
    {
        let mut i: usize = 0;
        while i < self.entries.len()
            invariant
                i <= self.entries@.len(),
                forall|j: int| 0 <= j < i ==> self.entries@[j].0 != *o,
            decreases self.entries@.len() - i,
        {
            if self.entries[i].0 == *o {
                assert(seq_has_key(self.entries@, *o)) by {
                    assert(self.entries@[i as int].0 == *o);
                }
                return true;
            }
            i += 1;
        }
        false
    }
}

/// The entry list that results from adding `added` to `base` in order,
/// skipping any entry whose output reference is already present.
pub open spec fn merge_entries(
    base: Seq<(OutPoint, u64)>,
    added: Seq<(OutPoint, u64)>,
) -> Seq<(OutPoint, u64)>
    decreases added.len(),
{
    if added.len() == 0 {
        base
    } else {
        let prev = merge_entries(base, added.drop_last());
        if seq_has_key(prev, added.last().0) {
            prev
        } else {
            prev.push(added.last())
        }
    }
}

/// Merging adds exactly the keys of `added` to the keys of `base`.
pub proof fn lemma_merge_entries_membership(
    base: Seq<(OutPoint, u64)>,
    added: Seq<(OutPoint, u64)>,
)
    ensures
        forall|o: OutPoint|
            seq_has_key(merge_entries(base, added), o)
                <==> (seq_has_key(base, o) || seq_has_key(added, o)),
    decreases added.len(),
{
    if added.len() == 0 {
        assert forall|o: OutPoint| !seq_has_key(added, o) by {}
    } else {
        lemma_merge_entries_membership(base, added.drop_last());
        let prev = merge_entries(base, added.drop_last());
        let last = added.last();
        assert forall|o: OutPoint|
            seq_has_key(merge_entries(base, added), o)
                <==> (seq_has_key(base, o) || seq_has_key(added, o)) by {
            if seq_has_key(added.drop_last(), o) {
                let i = choose|i: int|
                    0 <= i < added.drop_last().len() && added.drop_last()[i].0 == o;
                assert(added[i].0 == o);
            }
            if seq_has_key(added, o) && o != last.0 {
                let i = choose|i: int| 0 <= i < added.len() && added[i].0 == o;
                assert(i < added.len() - 1);
                assert(added.drop_last()[i].0 == o);
            }
            if o == last.0 {
                assert(added[added.len() - 1].0 == o);
            }
            if !seq_has_key(prev, last.0) {
                let pushed = prev.push(last);
                if seq_has_key(pushed, o) {
                    let i = choose|i: int| 0 <= i < pushed.len() && pushed[i].0 == o;
                    if i < prev.len() {
                        assert(prev[i].0 == o);
                    }
                }
                if seq_has_key(prev, o) {
                    let i = choose|i: int| 0 <= i < prev.len() && prev[i].0 == o;
                    assert(pushed[i].0 == o);
                }
                if o == last.0 {
                    assert(pushed[prev.len() as int].0 == o);
                }
            }
        }
    }
}

/// Merging preserves key uniqueness.
pub proof fn lemma_merge_entries_wf(base: Seq<(OutPoint, u64)>, added: Seq<(OutPoint, u64)>)
    requires
        forall|i: int, j: int| 0 <= i < j < base.len() ==> base[i].0 != base[j].0,
    ensures
        forall|i: int, j: int|
            0 <= i < j < merge_entries(base, added).len()
                ==> merge_entries(base, added)[i].0 != merge_entries(base, added)[j].0,
    decreases added.len(),
{
    if added.len() == 0 {
    } else {
        lemma_merge_entries_wf(base, added.drop_last());
        let prev = merge_entries(base, added.drop_last());
        let last = added.last();
        if !seq_has_key(prev, last.0) {
            let pushed = prev.push(last);
            assert forall|i: int, j: int|
                0 <= i < j < pushed.len() implies pushed[i].0 != pushed[j].0 by {
                if j < prev.len() {
                    assert(prev[i].0 != prev[j].0);
                } else {
                    assert(pushed[j] == last);
                    assert(pushed[i] == prev[i]);
                    if prev[i].0 == last.0 {
                        assert(seq_has_key(prev, last.0));
                    }
                }
            }
        }
    }
}

/// Add the priced entries `added` to the candidate set `base`, keeping the
/// value already known for any output reference that is already present.
pub fn merge_candidates(base: UnspentOutputs, added: &Vec<(OutPoint, u64)>) -> (merged:
    UnspentOutputs)
    requires
        base.wf(),
    ensures
        merged.entries@ == merge_entries(base.entries@, added@),
        merged.wf(),
        forall|o: OutPoint| #[trigger]
            merged.spec_contains_key(o) <==> (base.spec_contains_key(o) || seq_has_key(added@, o)),
{
    let ghost base_entries = base.entries@;
    let mut merged = base;
    let mut i: usize = 0;
    while i < added.len()
        invariant
            i <= added@.len(),
            merged.entries@ == merge_entries(base_entries, added@.subrange(0, i as int)),
        decreases added@.len() - i,
    {
        let (o, v) = added[i];
        let ghost prev = merged.entries@;
        proof {
            assert(added@.subrange(0, i + 1 as int).drop_last() =~= added@.subrange(0, i as int));
            assert(added@.subrange(0, i + 1 as int).last() == added@[i as int]);
        }
        if !merged.contains_key(&o) {
            merged.entries.push((o, v));
            proof {
                assert((o, v) == added@[i as int]);
                assert(merged.entries@ == prev.push(added@[i as int]));
            }
        }
        i += 1;
    }
    proof {
        assert(added@.subrange(0, added@.len() as int) =~= added@);
        lemma_merge_entries_wf(base_entries, added@);
        lemma_merge_entries_membership(base_entries, added@);
    }
    merged
}

/// Where each known inscription currently sits: each entry maps a satpoint
/// to the inscription found there. An output may host several inscriptions
/// at distinct offsets, so distinct keys may share an output reference.
#[derive(Clone, PartialEq, Eq, Debug)]
pub struct InscriptionLocations {
    pub entries: Vec<(SatPoint, InscriptionId)>,
}

impl InscriptionLocations {
    /// Well-formed: one entry per satpoint.
    pub open spec fn wf(self) -> bool {
        forall|i: int, j: int|
            0 <= i < j < self.entries@.len() ==> self.entries@[i].0 != self.entries@[j].0
    }

    /// Is `sp` the location of some inscription?
    pub open spec fn spec_contains_satpoint(self, sp: SatPoint) -> bool {
        exists|i: int| 0 <= i < self.entries@.len() && self.entries@[i].0 == sp
    }

    /// Does the output `o` host some inscription?
    pub open spec fn spec_has_outpoint(self, o: OutPoint) -> bool {
        exists|i: int| 0 <= i < self.entries@.len() && self.entries@[i].0.outpoint == o
    }

    pub fn contains_satpoint(&self, sp: &SatPoint) -> (r: bool)
        ensures
            r == self.spec_contains_satpoint(*sp),
    {
        let mut i: usize = 0;
        while i < self.entries.len()
            invariant
                i <= self.entries@.len(),
                forall|j: int| 0 <= j < i ==> self.entries@[j].0 != *sp,
            decreases self.entries@.len() - i,
        {
            if self.entries[i].0 == *sp {
                assert(self.spec_contains_satpoint(*sp)) by {
                    assert(self.entries@[i as int].0 == *sp);
                }
                return true;
            }
            i += 1;
        }
        false
    }

    pub fn has_outpoint(&self, o: &OutPoint) -> (r: bool)
        ensures
            r == self.spec_has_outpoint(*o),
    {
        let mut i: usize = 0;
        while i < self.entries.len()
            invariant
                i <= self.entries@.len(),
                forall|j: int| 0 <= j < i ==> self.entries@[j].0.outpoint != *o,
            decreases self.entries@.len() - i,
        {
            if self.entries[i].0.outpoint == *o {
                assert(self.spec_has_outpoint(*o)) by {
                    assert(self.entries@[i as int].0.outpoint == *o);
                }
                return true;
            }
            i += 1;
        }
        false
    }
}

/// Linear membership test on a list of output references.
pub fn contains_outpoint(v: &Vec<OutPoint>, o: &OutPoint) -> (r: bool)
    ensures
        r == v@.contains(*o),
{
    let mut i: usize = 0;
    while i < v.len()
        invariant
            i <= v@.len(),
            forall|j: int| 0 <= j < i ==> v@[j] != *o,
        decreases v@.len() - i,
    {
        if v[i] == *o {
            assert(v@.contains(*o)) by {
                assert(v@[i as int] == *o);
            }
            return true;
        }
        i += 1;
    }
    false
}

} // verus!
