use emerge_skia::events::contributors::ElementEventKind;
use emerge_skia::events::followups::ListenerAction;
use emerge_skia::events::hit_probe::{
    expected_at, first_target_sample_ms, winner_from_actions, ExpectedHitWinner,
    SampledRegistrySource,
};
use emerge_skia::events::registry_builder::RuntimeChange;

fn mouse_move(element_id: u64) -> ListenerAction {
    ListenerAction::ElixirEvent {
        element_id,
        kind: ElementEventKind::MouseMove,
        route: None,
    }
}

#[test]
fn first_mouse_move_on_either_element_decides() {
    let actions = vec![
        ListenerAction::RuntimeChange(RuntimeChange::SetHoverStack),
        ListenerAction::ElixirEvent {
            element_id: 212,
            kind: ElementEventKind::MouseEnter,
            route: None,
        },
        mouse_move(99),
        mouse_move(211),
        mouse_move(212),
    ];
    assert_eq!(winner_from_actions(&actions, 212, 211), ExpectedHitWinner::Underlying);
    assert_eq!(winner_from_actions(&vec![mouse_move(212)], 212, 211), ExpectedHitWinner::Target);
    assert_eq!(winner_from_actions(&vec![mouse_move(5)], 212, 211), ExpectedHitWinner::Neither);
    assert_eq!(winner_from_actions(&Vec::new(), 212, 211), ExpectedHitWinner::Neither);
}

#[test]
fn probe_expectations_by_sample() {
    let newly_occupied = [
        (0, ExpectedHitWinner::Underlying),
        (500, ExpectedHitWinner::Target),
        (1000, ExpectedHitWinner::Target),
    ];
    assert_eq!(expected_at(&newly_occupied, 0), ExpectedHitWinner::Underlying);
    assert_eq!(expected_at(&newly_occupied, 500), ExpectedHitWinner::Target);
    assert_eq!(expected_at(&newly_occupied, 250), ExpectedHitWinner::Neither);
    assert_eq!(first_target_sample_ms(&newly_occupied), Some(500));

    let stable_outside = [
        (0, ExpectedHitWinner::Neither),
        (500, ExpectedHitWinner::Neither),
        (1000, ExpectedHitWinner::Neither),
    ];
    assert_eq!(first_target_sample_ms(&stable_outside), None);
    assert_ne!(SampledRegistrySource::LayoutOnly, SampledRegistrySource::RenderRebuild);
}
