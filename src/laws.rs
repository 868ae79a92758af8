use vstd::prelude::*;

use crate::records::{views, Livestock, LivestockView};
use crate::registry::{
    has_id, index_of, lemma_lookup_remove, lookup, pedigree, registry_wf,
    LivestockManagementSystem,
};

verus! {

proof fn lemma_counters_monotone(states: Seq<LivestockManagementSystem>, x: int, y: int)
    requires
        forall|k: int|
            0 <= k < states.len() - 1 ==> #[trigger] states[k].next_free_id() <= states[k
                + 1].next_free_id(),
        0 <= x <= y < states.len(),
    ensures
        states[x].next_free_id() <= states[y].next_free_id(),
    decreases y - x,
{
    if x < y {
        lemma_counters_monotone(states, x, y - 1);
        assert(states[y - 1].next_free_id() <= states[y].next_free_id());
    }
}

/// Identifiers are handed out in strictly increasing order. Take the
/// registry's states along a run of calls, none of which lowers the
/// allocator (no operation does). If the `a`-th identifier handed out is
/// the allocator's value in state `steps[a]`, and the call that handed it
/// out moved the allocator one past it (as `create_animal` and a
/// successful `breed_animals` do), then later identifiers are larger, and
/// so no two are equal.
pub proof fn lemma_identifiers_strictly_increase(
    states: Seq<LivestockManagementSystem>,
    steps: Seq<int>,
    ids: Seq<u64>,
)
    requires
        forall|k: int|
            0 <= k < states.len() - 1 ==> #[trigger] states[k].next_free_id() <= states[k
                + 1].next_free_id(),
        steps.len() == ids.len(),
        forall|a: int, b: int| 0 <= a < b < steps.len() ==> steps[a] < steps[b],
        forall|a: int|
            0 <= a < steps.len() ==> {
                &&& 0 <= #[trigger] steps[a]
                &&& steps[a] + 1 < states.len()
                &&& ids[a] == states[steps[a]].next_free_id()
                &&& states[steps[a] + 1].next_free_id() == ids[a] + 1
            },
    ensures
        forall|a: int, b: int| 0 <= a < b < ids.len() ==> ids[a] < ids[b],
{
    assert forall|a: int, b: int| 0 <= a < b < ids.len() implies ids[a] < ids[b] by {
        assert(0 <= steps[a] && 0 <= steps[b]);
        lemma_counters_monotone(states, steps[a] + 1, steps[b]);
    }
}

/// The identifier that the allocator hands out next belongs to no
/// registered animal, nor to any parent that a record names.
pub proof fn lemma_next_identifier_is_fresh(reg: &LivestockManagementSystem)
    requires
        reg.wf(),
    ensures
        !has_id(reg.records(), reg.next_free_id()),
        lookup(reg.records(), reg.next_free_id()) is None,
        forall|i: int|
            0 <= i < reg.records().len() ==> (#[trigger] reg.records()[i].parent_ids matches Some(
                p,
            ) ==> p.parent1_id != reg.next_free_id() && p.parent2_id != reg.next_free_id()),
{
}

/// Deleting an animal takes away its record and nothing else: every other
/// record, its parent links included, is found unchanged, and the deleted
/// identifier's pedigree is empty, so a branch that leads to it ends there.
pub proof fn lemma_deletion_keeps_links(s: Seq<LivestockView>, next: u64, id: u64, k: u64)
    requires
        registry_wf(s, next),
        has_id(s, id),
        k != id,
    ensures
        lookup(s.remove(index_of(s, id)), k) == lookup(s, k),
        lookup(s.remove(index_of(s, id)), id) is None,
        pedigree(s.remove(index_of(s, id)), id) == Seq::<LivestockView>::empty(),
{
    let i = index_of(s, id);
    lemma_lookup_remove(s, i, k);
    lemma_lookup_remove(s, i, id);
}

/// Listing twice with no change in between gives the same animals, in the
/// same order and so also as sets.
pub proof fn lemma_listing_is_stable(
    reg: &LivestockManagementSystem,
    first: Seq<Livestock>,
    second: Seq<Livestock>,
)
    requires
        views(first) == reg.records(),
        views(second) == reg.records(),
    ensures
        views(first) == views(second),
        views(first).to_set() == views(second).to_set(),
{
}

} // verus!
