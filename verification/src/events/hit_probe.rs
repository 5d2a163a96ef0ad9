//! Hit probes: which of two overlapping elements a pointer position reaches,
//! as read from the actions of the listener that took the position, and
//! the winners a probe expects over the samples of an animation.
use vstd::prelude::*;

use crate::events::contributors::ElementEventKind;
use crate::events::followups::{actions_view, ListenerAction, ListenerActionView};
use crate::events::registry_builder::NodeId;

verus! {

/// The element a hit probe reaches.
#[derive(Clone, Copy, Debug, PartialEq, Eq, Structural)]
pub enum ExpectedHitWinner {
    /// Neither element.
    Neither,
    Underlying,
    Target,
}

/// Where a sampled registry comes from: a layout-only build or a render
/// rebuild.
#[derive(Clone, Copy, Debug, PartialEq, Eq, Structural)]
pub enum SampledRegistrySource {
    LayoutOnly,
    RenderRebuild,
}

/// The winner that `actions` show: the first mouse-move event on the target
/// or on the underlying element decides; none when there is no such event.
pub open spec fn spec_winner(actions: Seq<ListenerActionView>, target_id: NodeId, underlying_id: NodeId) -> ExpectedHitWinner
    decreases actions.len(),
{
    if actions.len() == 0 {
        ExpectedHitWinner::Neither
    } else {
        match actions[0] {
            ListenerActionView::ElixirEvent { element_id, kind, .. } if kind == ElementEventKind::MouseMove
                && (element_id == target_id || element_id == underlying_id) => {
                if element_id == target_id {
                    ExpectedHitWinner::Target
                } else {
                    ExpectedHitWinner::Underlying
                }
            },
            _ => spec_winner(actions.drop_first(), target_id, underlying_id),
        }
    }
}

/// The element that a probe's actions show it reached.
pub fn winner_from_actions(actions: &Vec<ListenerAction>, target_id: NodeId, underlying_id: NodeId) -> (winner:
    ExpectedHitWinner)
    ensures
        winner == spec_winner(actions_view(actions@), target_id, underlying_id),
{
    let ghost all = actions_view(actions@);
    assert(all.skip(0) =~= all);
    let mut k: usize = 0;
    while k < actions.len()
        invariant
            k <= actions@.len(),
            all == actions_view(actions@),
            all.len() == actions@.len(),
            spec_winner(all, target_id, underlying_id) == spec_winner(all.skip(k as int), target_id, underlying_id),
        decreases actions@.len() - k,
    {
        let ghost rest = all.skip(k as int);
        assert(rest[0] == all[k as int]);
        assert(rest.drop_first() =~= all.skip(k + 1));
        match &actions[k] {
            ListenerAction::ElixirEvent { element_id, kind, .. } => {
                if *kind == ElementEventKind::MouseMove {
                    if *element_id == target_id {
                        return ExpectedHitWinner::Target;
                    }
                    if *element_id == underlying_id {
                        return ExpectedHitWinner::Underlying;
                    }
                }
            },
            _ => {},
        }
        k = k + 1;
    }
    assert(all.skip(all.len() as int) =~= Seq::<ListenerActionView>::empty());
    ExpectedHitWinner::Neither
}

/// The winner expected at `sample_ms`: the first entry for that sample,
/// none when the table has no entry for it.
pub open spec fn spec_expected_at(table: Seq<(u64, ExpectedHitWinner)>, sample_ms: u64) -> ExpectedHitWinner
    decreases table.len(),
{
    if table.len() == 0 {
        ExpectedHitWinner::Neither
    } else if table[0].0 == sample_ms {
        table[0].1
    } else {
        spec_expected_at(table.drop_first(), sample_ms)
    }
}

/// The winner a probe expects at `sample_ms`.
pub fn expected_at(table: &[(u64, ExpectedHitWinner)], sample_ms: u64) -> (winner: ExpectedHitWinner)
    ensures
        winner == spec_expected_at(table@, sample_ms),
{
    assert(table@.skip(0) =~= table@);
    let mut k: usize = 0;
    while k < table.len()
        invariant
            k <= table@.len(),
            spec_expected_at(table@, sample_ms) == spec_expected_at(table@.skip(k as int), sample_ms),
        decreases table@.len() - k,
    {
        assert(table@.skip(k as int).drop_first() =~= table@.skip(k + 1));
        let (sample, winner) = table[k];
        if sample == sample_ms {
            return winner;
        }
        k = k + 1;
    }
    assert(table@.skip(table@.len() as int) =~= Seq::<(u64, ExpectedHitWinner)>::empty());
    ExpectedHitWinner::Neither
}

/// The first sample at which the target is expected to win.
pub open spec fn spec_first_target_sample(table: Seq<(u64, ExpectedHitWinner)>) -> Option<u64>
    decreases table.len(),
{
    if table.len() == 0 {
        None
    } else if table[0].1 == ExpectedHitWinner::Target {
        Some(table[0].0)
    } else {
        spec_first_target_sample(table.drop_first())
    }
}

/// The first sample of the table at which the target is expected to win.
pub fn first_target_sample_ms(table: &[(u64, ExpectedHitWinner)]) -> (sample: Option<u64>)
    ensures
        sample == spec_first_target_sample(table@),
{
    assert(table@.skip(0) =~= table@);
    let mut k: usize = 0;
    while k < table.len()
        invariant
            k <= table@.len(),
            spec_first_target_sample(table@) == spec_first_target_sample(table@.skip(k as int)),
        decreases table@.len() - k,
    {
        assert(table@.skip(k as int).drop_first() =~= table@.skip(k + 1));
        let (sample, winner) = table[k];
        if winner == ExpectedHitWinner::Target {
            return Some(sample);
        }
        k = k + 1;
    }
    assert(table@.skip(table@.len() as int) =~= Seq::<(u64, ExpectedHitWinner)>::empty());
    None
}

} // verus!
