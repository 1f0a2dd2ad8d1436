use vstd::prelude::*;
use crate::chain_data::{seq_has_key, InscriptionLocations, UnspentOutputs};
use crate::types::OutPoint;

verus! {

/// An output must never be silently spent when it is an unspent output that
/// hosts an inscription, or when it carries rune balances.
pub open spec fn spec_protected(
    unspent: UnspentOutputs,
    inscriptions: InscriptionLocations,
    runic_outputs: Seq<OutPoint>,
    o: OutPoint,
) -> bool {
    (unspent.spec_contains_key(o) && inscriptions.spec_has_outpoint(o)) || runic_outputs.contains(
        o,
    )
}

/// The unspent entries' output references that host an inscription, kept in
/// entry order.
pub open spec fn spec_inscribed_unspent(
    entries: Seq<(OutPoint, u64)>,
    inscriptions: InscriptionLocations,
) -> Seq<OutPoint>
    decreases entries.len(),
{
    if entries.len() == 0 {
        Seq::empty()
    } else {
        let prev = spec_inscribed_unspent(entries.drop_last(), inscriptions);
        if inscriptions.spec_has_outpoint(entries.last().0) {
            prev.push(entries.last().0)
        } else {
            prev
        }
    }
}

/// The inscribed-unspent list holds exactly the unspent keys that host an
/// inscription.
pub proof fn lemma_inscribed_unspent_membership(
    entries: Seq<(OutPoint, u64)>,
    inscriptions: InscriptionLocations,
)
    ensures
        forall|o: OutPoint| #[trigger]
            spec_inscribed_unspent(entries, inscriptions).contains(o) <==> (seq_has_key(entries, o)
                && inscriptions.spec_has_outpoint(o)),
    decreases entries.len(),
{
    if entries.len() == 0 {
    } else {
        lemma_inscribed_unspent_membership(entries.drop_last(), inscriptions);
        let prev = spec_inscribed_unspent(entries.drop_last(), inscriptions);
        let last = entries.last();
        let cur = spec_inscribed_unspent(entries, inscriptions);
        assert forall|o: OutPoint| #[trigger]
            cur.contains(o) <==> (seq_has_key(entries, o)
                && inscriptions.spec_has_outpoint(o)) by {
            if seq_has_key(entries.drop_last(), o) {
                let i = choose|i: int|
                    0 <= i < entries.drop_last().len() && entries.drop_last()[i].0 == o;
                assert(entries[i].0 == o);
            }
            if seq_has_key(entries, o) && o != last.0 {
                let i = choose|i: int| 0 <= i < entries.len() && entries[i].0 == o;
                assert(i < entries.len() - 1);
                assert(entries.drop_last()[i].0 == o);
            }
            if o == last.0 {
                assert(entries[entries.len() - 1].0 == o);
            }
            if inscriptions.spec_has_outpoint(last.0) {
                if cur.contains(o) {
                    let i = choose|i: int| 0 <= i < cur.len() && cur[i] == o;
                    if i < prev.len() {
                        assert(prev[i] == o);
                        assert(prev.contains(o));
                    }
                }
                if prev.contains(o) {
                    let i = choose|i: int| 0 <= i < prev.len() && prev[i] == o;
                    assert(cur[i] == o);
                }
                if o == last.0 {
                    assert(cur[prev.len() as int] == o);
                }
            }
        }
    }
}

/// The lock list covers exactly the protected outputs.
pub proof fn lemma_protect_covers(
    unspent: UnspentOutputs,
    inscriptions: InscriptionLocations,
    runic_outputs: Seq<OutPoint>,
    to_lock: Seq<OutPoint>,
)
    requires
        to_lock == spec_inscribed_unspent(unspent.entries@, inscriptions) + runic_outputs,
    ensures
        forall|o: OutPoint| #[trigger]
            to_lock.contains(o) <==> spec_protected(unspent, inscriptions, runic_outputs, o),
{
    lemma_inscribed_unspent_membership(unspent.entries@, inscriptions);
    let inscribed = spec_inscribed_unspent(unspent.entries@, inscriptions);
    assert forall|o: OutPoint| #[trigger]
        to_lock.contains(o) <==> spec_protected(unspent, inscriptions, runic_outputs, o) by {
        if to_lock.contains(o) {
            let i = choose|i: int| 0 <= i < to_lock.len() && to_lock[i] == o;
            if i < inscribed.len() {
                assert(inscribed[i] == o);
                assert(inscribed.contains(o));
            } else {
                assert(runic_outputs[i - inscribed.len()] == o);
                assert(runic_outputs.contains(o));
            }
        }
        if inscribed.contains(o) {
            let i = choose|i: int| 0 <= i < inscribed.len() && inscribed[i] == o;
            assert(to_lock[i] == o);
        }
        if runic_outputs.contains(o) {
            let i = choose|i: int| 0 <= i < runic_outputs.len() && runic_outputs[i] == o;
            assert(to_lock[inscribed.len() + i] == o);
        }
    }
}

/// UTXO Guard: compute the outputs that must be locked before a
/// direct-amount send — every unspent output hosting an inscription,
/// followed by every rune-bearing output. Locking itself is delegated to
/// the node collaborator.
pub fn protect(
    unspent: &UnspentOutputs,
    inscriptions: &InscriptionLocations,
    runic_outputs: &Vec<OutPoint>,
) -> (to_lock: Vec<OutPoint>)
    ensures
        to_lock@ == spec_inscribed_unspent(unspent.entries@, *inscriptions) + runic_outputs@,
        forall|o: OutPoint| #[trigger]
            to_lock@.contains(o) <==> spec_protected(*unspent, *inscriptions, runic_outputs@, o),
{
    let mut to_lock: Vec<OutPoint> = Vec::new();
    proof {
        assert(unspent.entries@.subrange(0, 0) =~= Seq::<(OutPoint, u64)>::empty());
        assert(to_lock@ =~= spec_inscribed_unspent(unspent.entries@.subrange(0, 0), *inscriptions));
    }
    let mut i: usize = 0;
    while i < unspent.entries.len()
        invariant
            i <= unspent.entries@.len(),
            to_lock@ == spec_inscribed_unspent(
                unspent.entries@.subrange(0, i as int),
                *inscriptions,
            ),
        decreases unspent.entries@.len() - i,
    {
        proof {
            assert(unspent.entries@.subrange(0, i + 1 as int).drop_last() =~= unspent.entries@
                .subrange(0, i as int));
            assert(unspent.entries@.subrange(0, i + 1 as int).last() == unspent.entries@[i as int]);
        }
        let o = unspent.entries[i].0;
        if inscriptions.has_outpoint(&o) {
            to_lock.push(o);
        }
        i += 1;
    }
    proof {
        assert(unspent.entries@.subrange(0, unspent.entries@.len() as int) =~= unspent.entries@);
    }
    let ghost inscribed = spec_inscribed_unspent(unspent.entries@, *inscriptions);
    proof {
        assert(to_lock@ =~= inscribed + runic_outputs@.subrange(0, 0));
    }
    let mut j: usize = 0;
    while j < runic_outputs.len()
        invariant
            j <= runic_outputs@.len(),
            to_lock@ == inscribed + runic_outputs@.subrange(0, j as int),
            inscribed == spec_inscribed_unspent(unspent.entries@, *inscriptions),
        decreases runic_outputs@.len() - j,
    {
        to_lock.push(runic_outputs[j]);
        proof {
            assert(to_lock@ =~= inscribed + runic_outputs@.subrange(0, j + 1 as int));
        }
        j += 1;
    }
    proof {
        assert(runic_outputs@.subrange(0, runic_outputs@.len() as int) =~= runic_outputs@);
        lemma_protect_covers(*unspent, *inscriptions, runic_outputs@, to_lock@);
    }
    to_lock
}

/// Guard computation is a pure function of its inputs: repeated computations
/// against identical chain-data snapshots produce identical lock lists.
pub proof fn lemma_protect_deterministic(
    unspent: UnspentOutputs,
    inscriptions: InscriptionLocations,
    runic_outputs: Seq<OutPoint>,
    l1: Seq<OutPoint>,
    l2: Seq<OutPoint>,
)
    requires
        l1 == spec_inscribed_unspent(unspent.entries@, inscriptions) + runic_outputs,
        l2 == spec_inscribed_unspent(unspent.entries@, inscriptions) + runic_outputs,
    ensures
        l1 == l2,
{
}

} // verus!
