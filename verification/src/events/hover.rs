//! The hover stack: which elements the pointer is inside, outermost first.
//!
//! A hover stack is read here by the element ids of its trackers. After a
//! registry rebuild the stack is reconciled against the trackers that the new
//! registry holds: trackers whose element is gone drop out, the others are
//! replaced by their fresh copies, and the order of the old stack is kept.
use vstd::prelude::*;

use crate::events::registry_builder::NodeId;

verus! {

/// The first position of `id` in `ids`, if it occurs.
pub open spec fn spec_first_index<T>(ids: Seq<T>, id: T) -> Option<int>
    decreases ids.len(),
{
    if ids.len() == 0 {
        None
    } else {
        match spec_first_index(ids.drop_last(), id) {
            Some(i) => Some(i),
            None => if ids.last() == id {
                Some(ids.len() - 1)
            } else {
                None
            },
        }
    }
}

/// `spec_first_index` finds the first occurrence, and only misses where there
/// is none.
pub proof fn lemma_first_index<T>(ids: Seq<T>, id: T)
    ensures
        match spec_first_index(ids, id) {
            Some(i) => 0 <= i < ids.len() && ids[i] == id && forall|j: int| 0 <= j < i ==> ids[j] != id,
            None => forall|j: int| 0 <= j < ids.len() ==> ids[j] != id,
        },
    decreases ids.len(),
{
    if ids.len() > 0 {
        let prefix = ids.drop_last();
        lemma_first_index(prefix, id);
        assert forall|j: int| 0 <= j < prefix.len() implies prefix[j] == ids[j] by {}
    }
}

/// Positions in `active` of the trackers that stay: for each tracker of
/// `current`, in order, the first active tracker of the same element.
pub open spec fn spec_kept_hover_indices(active: Seq<NodeId>, current: Seq<NodeId>) -> Seq<int>
    decreases current.len(),
{
    if current.len() == 0 {
        Seq::empty()
    } else {
        let kept = spec_kept_hover_indices(active, current.drop_last());
        match spec_first_index(active, current.last()) {
            Some(i) => kept.push(i),
            None => kept,
        }
    }
}

/// The reconciled hover stack, as positions in `active`: all active trackers
/// when there was no stack yet, else the kept ones.
pub open spec fn spec_reconcile_hover_stack(active: Seq<NodeId>, current: Seq<NodeId>) -> Seq<int> {
    if current.len() == 0 {
        Seq::new(active.len(), |i: int| i)
    } else {
        spec_kept_hover_indices(active, current)
    }
}

pub open spec fn as_ints(indices: Seq<usize>) -> Seq<int> {
    indices.map_values(|i: usize| i as int)
}

/// The first position of `id` in `ids`.
pub fn first_index_of(ids: &Vec<NodeId>, id: NodeId) -> (found: Option<usize>)
    ensures
        match found {
            Some(i) => spec_first_index(ids@, id) == Some(i as int),
            None => spec_first_index(ids@, id) is None,
        },
{
    proof {
        lemma_first_index(ids@, id);
    }
    let mut k: usize = 0;
    while k < ids.len()
        invariant
            k <= ids.len(),
            forall|j: int| 0 <= j < k ==> ids@[j] != id,
            match spec_first_index(ids@, id) {
                Some(i) => 0 <= i < ids@.len() && ids@[i] == id && forall|j: int| 0 <= j < i ==> ids@[j] != id,
                None => forall|j: int| 0 <= j < ids@.len() ==> ids@[j] != id,
            },
        decreases ids.len() - k,
    {
        if ids[k] == id {
            return Some(k);
        }
        k = k + 1;
    }
    None
}

/// Whether two hover stacks differ in the elements they hold, position by
/// position.
pub fn hover_stack_ids_changed(current: &Vec<NodeId>, next: &Vec<NodeId>) -> (changed: bool)
    ensures
        changed == (current@ != next@),
{
    if current.len() != next.len() {
        return true;
    }
    let mut k: usize = 0;
    while k < current.len()
        invariant
            k <= current.len(),
            current.len() == next.len(),
            forall|j: int| 0 <= j < k ==> current@[j] == next@[j],
        decreases current.len() - k,
    {
        if current[k] != next[k] {
            return true;
        }
        k = k + 1;
    }
    assert(current@ =~= next@);
    false
}

/// Reconciles the hover stack `current` against the trackers `active` that the
/// rebuilt registry holds, both read by element id. The result lists positions
/// in `active`, outermost first.
pub fn reconcile_hover_stack(active: &Vec<NodeId>, current: &Vec<NodeId>) -> (stack: Vec<usize>)
    ensures
        as_ints(stack@) == spec_reconcile_hover_stack(active@, current@),
{
    let mut stack: Vec<usize> = Vec::new();
    if current.len() == 0 {
        let mut k: usize = 0;
        while k < active.len()
            invariant
                k <= active.len(),
                stack@.len() == k,
                as_ints(stack@) == Seq::new(k as nat, |i: int| i),
            decreases active.len() - k,
        {
            let ghost before = stack@;
            stack.push(k);
            assert forall|j: int| 0 <= j < k + 1 implies #[trigger] as_ints(stack@)[j] == j by {
                if j < k {
                    assert(stack@[j] == before[j]);
                    assert(as_ints(before)[j] == j);
                }
            }
            assert(as_ints(stack@) =~= Seq::new((k + 1) as nat, |i: int| i));
            k = k + 1;
        }
        return stack;
    }
    let mut k: usize = 0;
    while k < current.len()
        invariant
            k <= current.len(),
            as_ints(stack@) == spec_kept_hover_indices(active@, current@.take(k as int)),
        decreases current.len() - k,
    {
        let ghost before = stack@;
        assert(current@.take(k as int + 1).drop_last() =~= current@.take(k as int));
        assert(current@.take(k as int + 1).last() == current@[k as int]);
        match first_index_of(active, current[k]) {
            Some(i) => {
                stack.push(i);
                assert(as_ints(stack@) =~= as_ints(before).push(i as int));
            },
            None => {},
        }
        k = k + 1;
    }
    assert(current@.take(current.len() as int) =~= current@);
    stack
}

/// Every tracker on a reconciled stack is an active tracker of an element that
/// was on the old stack.
pub proof fn law_reconciled_trackers_are_active(active: Seq<NodeId>, current: Seq<NodeId>)
    requires
        current.len() > 0,
    ensures
        forall|k: int| 0 <= k < spec_reconcile_hover_stack(active, current).len() ==> {
            let i = #[trigger] spec_reconcile_hover_stack(active, current)[k];
            0 <= i < active.len() && current.contains(active[i])
        },
    decreases current.len(),
{
    let kept = spec_kept_hover_indices(active, current);
    let prefix = current.drop_last();
    let prev = spec_kept_hover_indices(active, prefix);
    if prefix.len() > 0 {
        law_reconciled_trackers_are_active(active, prefix);
        assert(spec_reconcile_hover_stack(active, prefix) == prev);
    }
    lemma_first_index(active, current.last());
    assert forall|k: int| 0 <= k < kept.len() implies {
        let i = #[trigger] kept[k];
        0 <= i < active.len() && current.contains(active[i])
    } by {
        if k < prev.len() {
            assert(kept[k] == prev[k]);
            let i = prev[k];
            assert(spec_reconcile_hover_stack(active, prefix)[k] == i);
            assert(prefix.contains(active[i]));
            let w = choose|w: int| 0 <= w < prefix.len() && prefix[w] == active[i];
            assert(current[w] == prefix[w]);
        } else {
            let last = current.len() - 1;
            assert(current[last] == current.last());
        }
    }
}

} // verus!
