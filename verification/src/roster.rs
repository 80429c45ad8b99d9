//! The table of processes, keyed by process id.

use std::collections::HashMap;
use vstd::prelude::*;

use crate::process::{ProcState, ProcStatus};

verus! {

broadcast use vstd::std_specs::hash::group_hash_axioms;

/// `ids` lists the keys of `procs`, each once, in ascending order.
pub open spec fn lists_keys(ids: Seq<usize>, procs: Map<usize, ProcState>) -> bool {
    &&& forall|i: int, j: int| 0 <= i < j < ids.len() ==> ids[i] < ids[j]
    &&& forall|k: usize| procs.contains_key(k) <==> #[trigger] ids.contains(k)
}

/// Every process of the table, begun afresh unless at rest.
pub open spec fn all_restarted(procs: Map<usize, ProcState>) -> Map<usize, ProcState> {
    procs.map_values(|p: ProcState| p.restarted())
}

/// Every process of the table, marked running or paused unless at rest.
pub open spec fn all_set_going(procs: Map<usize, ProcState>, going: bool) -> Map<
    usize,
    ProcState,
> {
    procs.map_values(|p: ProcState| p.set_going(going))
}

/// The processes of the table that have not finished.
pub open spec fn unfinished(procs: Map<usize, ProcState>) -> Map<usize, ProcState> {
    procs.filter_keys(|k: usize| !(procs[k].status is Finished))
}

/// One process that has not begun for each of `totals`, under its position.
pub open spec fn fresh_procs(totals: Seq<u64>) -> Map<usize, ProcState> {
    Map::new(
        |k: usize| k < totals.len(),
        |k: usize| ProcState::fresh(k, totals[k as int]),
    )
}

/// Sorts `ids` in ascending order.
///
/// Calls `slice::sort_unstable` of the standard library. Trusted: afterwards the
/// vector is in ascending order and holds what it held before, each value as
/// often.
#[verifier::external_body]
fn sort_ids(ids: &mut Vec<usize>)
    ensures
        forall|i: int, j: int| 0 <= i < j < final(ids)@.len() ==> final(ids)@[i] <= final(ids)@[j],
        final(ids)@.to_multiset() == old(ids)@.to_multiset(),
{
    ids.sort_unstable();
}

/// The keys of the table, each once, in no particular order.
fn collect_ids(procs: &HashMap<usize, ProcState>) -> (ids: Vec<usize>)
    ensures
        ids@.no_duplicates(),
        forall|k: usize| procs@.contains_key(k) <==> #[trigger] ids@.contains(k),
{
    let mut ids: Vec<usize> = Vec::new();
    for id in it: procs.keys()
        invariant
            ids@ == it.seq().unref().take(it.index() as int),
            it.seq().unref().to_set() == procs@.dom(),
            it.seq().no_duplicates(),
    {
        ids.push(*id);
    }
    proof {
        let all = vstd::std_specs::iter::IteratorSpec::remaining(
            &vstd::std_specs::hash::spec_keys_iter(procs),
        ).unref();
        assert(ids@ == all);
        assert forall|k: usize| procs@.contains_key(k) <==> #[trigger] ids@.contains(k) by {
            assert(all.to_set().contains(k) <==> all.contains(k));
        }
    }
    ids
}

/// The ids of the processes in the table, in ascending order.
pub fn sorted_ids(procs: &HashMap<usize, ProcState>) -> (ids: Vec<usize>)
    ensures
        lists_keys(ids@, procs@),
{
    let mut ids: Vec<usize> = collect_ids(procs);
    let ghost before = ids@;
    sort_ids(&mut ids);
    proof {
        before.lemma_multiset_has_no_duplicates();
        ids@.lemma_multiset_has_no_duplicates_conv();
        assert forall|k: usize| procs@.contains_key(k) <==> #[trigger] ids@.contains(k) by {
            broadcast use vstd::seq_lib::group_to_multiset_ensures;
            assert(before.contains(k) <==> before.to_multiset().count(k) > 0);
            assert(ids@.contains(k) <==> ids@.to_multiset().count(k) > 0);
        }
    }
    ids
}

/// Begins every process of the table afresh, except those at rest.
pub fn restart_all(procs: &mut HashMap<usize, ProcState>)
    ensures
        final(procs)@ == all_restarted(old(procs)@),
{
    let ids: Vec<usize> = collect_ids(procs);
    let ghost before = procs@;
    for i in 0..ids.len()
        invariant
            ids@.no_duplicates(),
            forall|k: usize| before.contains_key(k) <==> #[trigger] ids@.contains(k),
            procs@.dom() == before.dom(),
            forall|j: int| 0 <= j < i ==> procs@[#[trigger] ids@[j]] == before[ids@[j]].restarted(),
            forall|j: int| i <= j < ids@.len() ==> procs@[#[trigger] ids@[j]] == before[ids@[j]],
    {
        let id: usize = ids[i];
        assert(ids@.contains(id));
        if let Some(found) = procs.get(&id) {
            let mut p: ProcState = *found;
            p.restart();
            procs.insert(id, p);
        }
    }
    assert forall|k: usize| before.contains_key(k) implies #[trigger] procs@[k]
        == before[k].restarted() by {
        assert(ids@.contains(k));
    }
    assert(procs@ =~= all_restarted(before));
}

/// Marks every process of the table running or paused, except those at rest.
pub fn set_all_going(procs: &mut HashMap<usize, ProcState>, going: bool)
    ensures
        final(procs)@ == all_set_going(old(procs)@, going),
{
    let ids: Vec<usize> = collect_ids(procs);
    let ghost before = procs@;
    for i in 0..ids.len()
        invariant
            ids@.no_duplicates(),
            forall|k: usize| before.contains_key(k) <==> #[trigger] ids@.contains(k),
            procs@.dom() == before.dom(),
            forall|j: int|
                0 <= j < i ==> procs@[#[trigger] ids@[j]] == before[ids@[j]].set_going(going),
            forall|j: int| i <= j < ids@.len() ==> procs@[#[trigger] ids@[j]] == before[ids@[j]],
    {
        let id: usize = ids[i];
        assert(ids@.contains(id));
        if let Some(found) = procs.get(&id) {
            let mut p: ProcState = *found;
            p.mark_going(going);
            procs.insert(id, p);
        }
    }
    assert forall|k: usize| before.contains_key(k) implies #[trigger] procs@[k]
        == before[k].set_going(going) by {
        assert(ids@.contains(k));
    }
    assert(procs@ =~= all_set_going(before, going));
}

/// A copy of the processes that have not finished.
pub fn copy_unfinished(procs: &HashMap<usize, ProcState>) -> (snapshot: HashMap<usize, ProcState>)
    ensures
        snapshot@ == unfinished(procs@),
{
    let ids: Vec<usize> = collect_ids(procs);
    let mut snapshot: HashMap<usize, ProcState> = HashMap::new();
    for i in 0..ids.len()
        invariant
            forall|k: usize| procs@.contains_key(k) <==> #[trigger] ids@.contains(k),
            snapshot@ == unfinished(procs@).restrict(ids@.take(i as int).to_set()),
    {
        let id: usize = ids[i];
        assert(ids@.contains(id));
        assert(ids@.take(i + 1) =~= ids@.take(i as int).push(id));
        assert forall|k: usize| #[trigger]
            ids@.take(i + 1).contains(k) <==> ids@.take(i as int).contains(k) || k == id by {
            let longer = ids@.take(i as int).push(id);
            if ids@.take(i as int).contains(k) {
                let j = choose|j: int| 0 <= j < i && ids@.take(i as int)[j] == k;
                assert(longer[j] == k);
            }
            assert(longer[i as int] == id);
        }
        if let Some(p) = procs.get(&id) {
            if !matches!(p.status, ProcStatus::Finished) {
                snapshot.insert(id, *p);
            }
        }
        assert(snapshot@ =~= unfinished(procs@).restrict(ids@.take(i + 1).to_set()));
    }
    assert(ids@.take(ids@.len() as int) =~= ids@);
    assert(snapshot@ =~= unfinished(procs@));
    snapshot
}

/// One process that has not begun for each of `totals`, under its position.
pub fn fresh_table(totals: &Vec<u64>) -> (procs: HashMap<usize, ProcState>)
    ensures
        procs@ == fresh_procs(totals@),
{
    let mut procs: HashMap<usize, ProcState> = HashMap::new();
    for i in 0..totals.len()
        invariant
            procs@ == fresh_procs(totals@.take(i as int)),
    {
        procs.insert(i, ProcState::new(i, totals[i]));
        assert(procs@ =~= fresh_procs(totals@.take(i + 1)));
    }
    assert(totals@.take(totals@.len() as int) =~= totals@);
    procs
}

/// A table whose keys are the numbers below `n` has `n` entries.
pub proof fn lemma_dense_len(procs: Map<usize, ProcState>, n: usize)
    requires
        procs.dom().finite(),
        forall|k: usize| #[trigger] procs.contains_key(k) <==> k < n,
    ensures
        procs.len() == n,
    decreases n,
{
    if n == 0 {
        assert(procs.dom() =~= Set::<usize>::empty());
    } else {
        let last = (n - 1) as usize;
        lemma_dense_len(procs.remove(last), last);
    }
}

} // verus!
