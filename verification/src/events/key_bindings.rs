//! Listeners for the user key bindings of a focused element.
//!
//! Bindings are grouped into slots: one slot per phase (key down or key up),
//! key, modifiers and match mode. Every binding adds its actions to the slot
//! of its signature, creating the slot the first time the signature is
//! seen, and each slot becomes one listener. Key-down events come first,
//! then key-press trackers, then key-up events, so within a slot the actions
//! keep that order and, within each kind, binding order.
use vstd::prelude::*;

use crate::events::contributors::{
    binding_arms_text_commit_suppression, key_press_tracker_for_binding, spec_is_text_producing_key,
    ElementInteraction, InteractionKind, KeyBindingSpec, KeyPressFollowup, KeyPressTracker,
};
use crate::events::hover::{lemma_first_index, spec_first_index};
use crate::events::registry_builder::{KeyBindingMatch, Listener, ListenerMatcher, NodeId};
use crate::input::{MOD_CTRL, MOD_META};
use crate::keys::CanonicalKey;

verus! {

/// Whether a slot answers key down or key up.
#[derive(Clone, Copy, Debug, PartialEq, Eq, Structural)]
pub enum UserKeySlotPhase {
    Down,
    Up,
}

/// An action of a user key-binding listener.
#[derive(Debug, PartialEq)]
pub enum KeyBindingAction {
    /// A key-down event on the binding's route.
    KeyDown { element_id: NodeId, route: String },
    /// A key-up event on the binding's route.
    KeyUp { element_id: NodeId, route: String },
    /// Suppress the text commit that the key-down would produce.
    ArmTextCommitSuppression { element_id: NodeId, key: CanonicalKey },
    /// Start tracking a key press until its release.
    StartKeyPressTracker(KeyPressTracker),
}

/// A key-binding action with its strings as character sequences.
pub ghost enum KeyBindingActionView {
    KeyDown { element_id: NodeId, route: Seq<char> },
    KeyUp { element_id: NodeId, route: Seq<char> },
    ArmTextCommitSuppression { element_id: NodeId, key: CanonicalKey },
    StartKeyPressTracker {
        source_element_id: Option<NodeId>,
        key: CanonicalKey,
        mods: u8,
        match_mode: KeyBindingMatch,
        followups: Seq<(NodeId, Seq<char>)>,
    },
}

pub open spec fn followup_view(f: KeyPressFollowup) -> (NodeId, Seq<char>) {
    match f {
        KeyPressFollowup::ElixirEvent { element_id, route } => (element_id, route@),
    }
}

impl View for KeyBindingAction {
    type V = KeyBindingActionView;

    open spec fn view(&self) -> KeyBindingActionView {
        match self {
            KeyBindingAction::KeyDown { element_id, route } => KeyBindingActionView::KeyDown {
                element_id: *element_id,
                route: route@,
            },
            KeyBindingAction::KeyUp { element_id, route } => KeyBindingActionView::KeyUp {
                element_id: *element_id,
                route: route@,
            },
            KeyBindingAction::ArmTextCommitSuppression { element_id, key } => {
                KeyBindingActionView::ArmTextCommitSuppression { element_id: *element_id, key: *key }
            },
            KeyBindingAction::StartKeyPressTracker(t) => KeyBindingActionView::StartKeyPressTracker {
                source_element_id: t.source_element_id,
                key: t.key,
                mods: t.mods,
                match_mode: t.match_mode,
                followups: t.followups@.map_values(|f: KeyPressFollowup| followup_view(f)),
            },
        }
    }
}

pub open spec fn actions_view(actions: Seq<KeyBindingAction>) -> Seq<KeyBindingActionView> {
    actions.map_values(|a: KeyBindingAction| a@)
}

/// A slot's signature: phase, key, modifiers and match mode.
pub type SlotSignature = (UserKeySlotPhase, CanonicalKey, u8, KeyBindingMatch);

/// Bindings of one signature, with their actions in order.
#[derive(Debug)]
pub struct UserKeySlot {
    pub phase: UserKeySlotPhase,
    pub key: CanonicalKey,
    pub mods: u8,
    pub match_mode: KeyBindingMatch,
    pub actions: Vec<KeyBindingAction>,
}

pub ghost struct UserKeySlotView {
    pub signature: SlotSignature,
    pub actions: Seq<KeyBindingActionView>,
}

pub open spec fn slot_view(slot: UserKeySlot) -> UserKeySlotView {
    UserKeySlotView {
        signature: (slot.phase, slot.key, slot.mods, slot.match_mode),
        actions: actions_view(slot.actions@),
    }
}

pub open spec fn slots_view(slots: Seq<UserKeySlot>) -> Seq<UserKeySlotView> {
    slots.map_values(|s: UserKeySlot| slot_view(s))
}

pub open spec fn signatures(slots: Seq<UserKeySlotView>) -> Seq<SlotSignature> {
    slots.map_values(|s: UserKeySlotView| s.signature)
}

/// `action` added to the first slot of signature `sig`, or to a new slot of
/// that signature at the end.
pub open spec fn spec_push_slot_action(
    slots: Seq<UserKeySlotView>,
    sig: SlotSignature,
    action: KeyBindingActionView,
) -> Seq<UserKeySlotView> {
    match spec_first_index(signatures(slots), sig) {
        Some(i) => slots.update(
            i,
            UserKeySlotView { signature: sig, actions: slots[i].actions.push(action) },
        ),
        None => slots.push(UserKeySlotView { signature: sig, actions: seq![action] }),
    }
}

pub open spec fn binding_signature(phase: UserKeySlotPhase, b: KeyBindingSpec) -> SlotSignature {
    (phase, b.key, b.mods, b.match_mode)
}

/// Whether a key-down binding of an element of kind `kind` must suppress the
/// text commit of its key.
pub open spec fn spec_arms_suppression(kind: InteractionKind, b: KeyBindingSpec) -> bool {
    kind == InteractionKind::TextInput && b.mods & (MOD_CTRL | MOD_META) == 0
        && spec_is_text_producing_key(b.key)
}

/// Slots after the key-down bindings: each adds its key-down event and, when
/// it arms text-commit suppression, the suppression.
pub open spec fn spec_down_slots(
    id: NodeId,
    kind: InteractionKind,
    bindings: Seq<KeyBindingSpec>,
) -> Seq<UserKeySlotView>
    decreases bindings.len(),
{
    if bindings.len() == 0 {
        Seq::empty()
    } else {
        let b = bindings.last();
        let sig = binding_signature(UserKeySlotPhase::Down, b);
        let with_event = spec_push_slot_action(
            spec_down_slots(id, kind, bindings.drop_last()),
            sig,
            KeyBindingActionView::KeyDown { element_id: id, route: b.route@ },
        );
        if spec_arms_suppression(kind, b) {
            spec_push_slot_action(
                with_event,
                sig,
                KeyBindingActionView::ArmTextCommitSuppression { element_id: id, key: b.key },
            )
        } else {
            with_event
        }
    }
}

/// Slots after the key-press bindings, from `start`: each starts a key-press
/// tracker in its key-down slot.
pub open spec fn spec_press_slots(
    start: Seq<UserKeySlotView>,
    id: NodeId,
    bindings: Seq<KeyBindingSpec>,
) -> Seq<UserKeySlotView>
    decreases bindings.len(),
{
    if bindings.len() == 0 {
        start
    } else {
        let b = bindings.last();
        spec_push_slot_action(
            spec_press_slots(start, id, bindings.drop_last()),
            binding_signature(UserKeySlotPhase::Down, b),
            KeyBindingActionView::StartKeyPressTracker {
                source_element_id: Some(id),
                key: b.key,
                mods: b.mods,
                match_mode: b.match_mode,
                followups: seq![(id, b.route@)],
            },
        )
    }
}

/// Slots after the key-up bindings, from `start`: each adds its key-up event
/// to its key-up slot.
pub open spec fn spec_up_slots(
    start: Seq<UserKeySlotView>,
    id: NodeId,
    bindings: Seq<KeyBindingSpec>,
) -> Seq<UserKeySlotView>
    decreases bindings.len(),
{
    if bindings.len() == 0 {
        start
    } else {
        let b = bindings.last();
        spec_push_slot_action(
            spec_up_slots(start, id, bindings.drop_last()),
            binding_signature(UserKeySlotPhase::Up, b),
            KeyBindingActionView::KeyUp { element_id: id, route: b.route@ },
        )
    }
}

/// All slots of an element's key bindings.
pub open spec fn spec_key_binding_slots(
    id: NodeId,
    kind: InteractionKind,
    on_key_down: Seq<KeyBindingSpec>,
    on_key_press: Seq<KeyBindingSpec>,
    on_key_up: Seq<KeyBindingSpec>,
) -> Seq<UserKeySlotView> {
    spec_up_slots(
        spec_press_slots(spec_down_slots(id, kind, on_key_down), id, on_key_press),
        id,
        on_key_up,
    )
}

/// The matcher of a slot's listener.
pub open spec fn slot_matcher(sig: SlotSignature) -> ListenerMatcher {
    match sig.0 {
        UserKeySlotPhase::Down => ListenerMatcher::KeyDownBinding {
            key: sig.1,
            mods: sig.2,
            match_mode: sig.3,
        },
        UserKeySlotPhase::Up => ListenerMatcher::KeyUpBinding { key: sig.1, mods: sig.2, match_mode: sig.3 },
    }
}

/// Whether `l` is the listener of slot `s` on element `id`.
pub open spec fn is_slot_listener(
    l: Listener<Vec<KeyBindingAction>>,
    id: NodeId,
    s: UserKeySlotView,
) -> bool {
    &&& l.element_id == Some(id)
    &&& l.matcher == slot_matcher(s.signature)
    &&& actions_view(l.compute@) == s.actions
}

/// The position of the first slot of signature `sig`.
fn find_slot(slots: &Vec<UserKeySlot>, sig: SlotSignature) -> (found: Option<usize>)
    ensures
        match found {
            Some(i) => spec_first_index(signatures(slots_view(slots@)), sig) == Some(i as int),
            None => spec_first_index(signatures(slots_view(slots@)), sig) is None,
        },
{
    let ghost sigs = signatures(slots_view(slots@));
    proof {
        lemma_first_index(sigs, sig);
    }
    let mut k: usize = 0;
    while k < slots.len()
        invariant
            k <= slots.len(),
            sigs == signatures(slots_view(slots@)),
            sigs.len() == slots@.len(),
            forall|j: int| 0 <= j < k ==> sigs[j] != sig,
            match spec_first_index(sigs, sig) {
                Some(i) => 0 <= i < sigs.len() && sigs[i] == sig && forall|j: int| 0 <= j < i ==> sigs[j] != sig,
                None => forall|j: int| 0 <= j < sigs.len() ==> sigs[j] != sig,
            },
        decreases slots.len() - k,
    {
        let slot = &slots[k];
        assert(sigs[k as int] == (slot.phase, slot.key, slot.mods, slot.match_mode));
        if slot.phase == sig.0 && slot.key == sig.1 && slot.mods == sig.2 && slot.match_mode == sig.3 {
            return Some(k);
        }
        k = k + 1;
    }
    None
}

/// Adds `action` to the slot of `binding`'s signature in `phase`, creating
/// the slot at the end when there is none yet.
pub fn push_user_key_slot_action(
    slots: &mut Vec<UserKeySlot>,
    phase: UserKeySlotPhase,
    binding: &KeyBindingSpec,
    action: KeyBindingAction,
)
    ensures
        slots_view(final(slots)@) == spec_push_slot_action(
            slots_view(old(slots)@),
            binding_signature(phase, *binding),
            action@,
        ),
{
    let sig = (phase, binding.key, binding.mods, binding.match_mode);
    let ghost before = slots_view(slots@);
    let ghost action_view = action@;
    proof {
        lemma_first_index(signatures(before), sig);
    }
    match find_slot(slots, sig) {
        Some(i) => {
            let mut slot = slots.remove(i);
            let ghost old_actions = slot.actions@;
            slot.actions.push(action);
            assert(actions_view(slot.actions@) =~= actions_view(old_actions).push(action_view));
            slots.insert(i, slot);
            assert(slots_view(slots@) =~= before.update(
                i as int,
                UserKeySlotView { signature: sig, actions: before[i as int].actions.push(action_view) },
            ));
        },
        None => {
            let mut actions = Vec::new();
            actions.push(action);
            assert(actions_view(actions@) =~= seq![action_view]);
            slots.push(
                UserKeySlot {
                    phase,
                    key: binding.key,
                    mods: binding.mods,
                    match_mode: binding.match_mode,
                    actions,
                },
            );
            assert(slots_view(slots@) =~= before.push(
                UserKeySlotView { signature: sig, actions: seq![action_view] },
            ));
        },
    }
}

/// The listener of a slot on element `id`.
pub fn user_key_slot_listener(id: NodeId, slot: UserKeySlot) -> (listener: Listener<
    Vec<KeyBindingAction>,
>)
    ensures
        is_slot_listener(listener, id, slot_view(slot)),
{
    let matcher = match slot.phase {
        UserKeySlotPhase::Down => ListenerMatcher::KeyDownBinding {
            key: slot.key,
            mods: slot.mods,
            match_mode: slot.match_mode,
        },
        UserKeySlotPhase::Up => ListenerMatcher::KeyUpBinding {
            key: slot.key,
            mods: slot.mods,
            match_mode: slot.match_mode,
        },
    };
    Listener { element_id: Some(id), matcher, compute: slot.actions }
}

/// The key-binding listeners of an element, one per slot in slot order;
/// none unless the element holds focus.
pub fn key_binding_listeners_for_element(
    element: &ElementInteraction,
    on_key_down: &[KeyBindingSpec],
    on_key_press: &[KeyBindingSpec],
    on_key_up: &[KeyBindingSpec],
) -> (listeners: Vec<Listener<Vec<KeyBindingAction>>>)
    ensures
        !element.focused_active ==> listeners@.len() == 0,
        element.focused_active ==> {
            let slots = spec_key_binding_slots(
                element.id,
                element.kind,
                on_key_down@,
                on_key_press@,
                on_key_up@,
            );
            &&& listeners@.len() == slots.len()
            &&& forall|i: int|
                0 <= i < slots.len() ==> is_slot_listener(#[trigger] listeners@[i], element.id, slots[i])
        },
{
    let mut listeners: Vec<Listener<Vec<KeyBindingAction>>> = Vec::new();
    if !element.focused_active {
        return listeners;
    }
    let id = element.id;
    let mut slots: Vec<UserKeySlot> = Vec::new();

    let mut k: usize = 0;
    while k < on_key_down.len()
        invariant
            k <= on_key_down@.len(),
            id == element.id,
            slots_view(slots@) == spec_down_slots(id, element.kind, on_key_down@.take(k as int)),
        decreases on_key_down@.len() - k,
    {
        let binding = &on_key_down[k];
        assert(on_key_down@.take(k + 1).drop_last() =~= on_key_down@.take(k as int));
        assert(on_key_down@.take(k + 1).last() == *binding);
        push_user_key_slot_action(
            &mut slots,
            UserKeySlotPhase::Down,
            binding,
            KeyBindingAction::KeyDown { element_id: id, route: binding.route.clone() },
        );
        if binding_arms_text_commit_suppression(element.kind, binding.key, binding.mods) {
            push_user_key_slot_action(
                &mut slots,
                UserKeySlotPhase::Down,
                binding,
                KeyBindingAction::ArmTextCommitSuppression { element_id: id, key: binding.key },
            );
        }
        k = k + 1;
    }
    assert(on_key_down@.take(on_key_down@.len() as int) =~= on_key_down@);
    let ghost after_down = slots_view(slots@);

    let mut k: usize = 0;
    while k < on_key_press.len()
        invariant
            k <= on_key_press@.len(),
            id == element.id,
            slots_view(slots@) == spec_press_slots(after_down, id, on_key_press@.take(k as int)),
        decreases on_key_press@.len() - k,
    {
        let binding = &on_key_press[k];
        assert(on_key_press@.take(k + 1).drop_last() =~= on_key_press@.take(k as int));
        assert(on_key_press@.take(k + 1).last() == *binding);
        let tracker = key_press_tracker_for_binding(id, binding);
        proof {
            assert(tracker.followups@.map_values(|f: KeyPressFollowup| followup_view(f)) =~= seq![
                (id, binding.route@),
            ]);
        }
        push_user_key_slot_action(
            &mut slots,
            UserKeySlotPhase::Down,
            binding,
            KeyBindingAction::StartKeyPressTracker(tracker),
        );
        k = k + 1;
    }
    assert(on_key_press@.take(on_key_press@.len() as int) =~= on_key_press@);
    let ghost after_press = slots_view(slots@);

    let mut k: usize = 0;
    while k < on_key_up.len()
        invariant
            k <= on_key_up@.len(),
            id == element.id,
            slots_view(slots@) == spec_up_slots(after_press, id, on_key_up@.take(k as int)),
        decreases on_key_up@.len() - k,
    {
        let binding = &on_key_up[k];
        assert(on_key_up@.take(k + 1).drop_last() =~= on_key_up@.take(k as int));
        assert(on_key_up@.take(k + 1).last() == *binding);
        push_user_key_slot_action(
            &mut slots,
            UserKeySlotPhase::Up,
            binding,
            KeyBindingAction::KeyUp { element_id: id, route: binding.route.clone() },
        );
        k = k + 1;
    }
    assert(on_key_up@.take(on_key_up@.len() as int) =~= on_key_up@);
    let ghost all = slots_view(slots@);
    assert(all == spec_key_binding_slots(element.id, element.kind, on_key_down@, on_key_press@, on_key_up@));

    let mut rest = slots;
    let n = rest.len();
    let mut k: usize = 0;
    while k < n
        invariant
            k <= n,
            n == all.len(),
            rest@.len() == n - k,
            slots_view(rest@) == all.skip(k as int),
            listeners@.len() == k,
            id == element.id,
            forall|i: int| 0 <= i < k ==> is_slot_listener(#[trigger] listeners@[i], id, all[i]),
        decreases n - k,
    {
        let ghost before = rest@;
        let slot = rest.remove(0);
        assert(slot_view(slot) == slots_view(before)[0]);
        assert(rest@ =~= before.skip(1));
        assert(slots_view(rest@) =~= slots_view(before).skip(1));
        assert(all.skip(k as int).skip(1) =~= all.skip(k + 1));
        listeners.push(user_key_slot_listener(id, slot));
        k = k + 1;
    }
    listeners
}

/// Every signature has at most one slot: pushing an action never creates a
/// second slot for a signature that already has one.
pub proof fn law_push_keeps_signatures_distinct(
    slots: Seq<UserKeySlotView>,
    sig: SlotSignature,
    action: KeyBindingActionView,
)
    requires
        signatures(slots).no_duplicates(),
    ensures
        signatures(spec_push_slot_action(slots, sig, action)).no_duplicates(),
        signatures(spec_push_slot_action(slots, sig, action)).contains(sig),
{
    let sigs = signatures(slots);
    lemma_first_index(sigs, sig);
    let after = spec_push_slot_action(slots, sig, action);
    match spec_first_index(sigs, sig) {
        Some(i) => {
            assert(signatures(after) =~= sigs);
            assert(signatures(after)[i] == sig);
        },
        None => {
            assert(signatures(after) =~= sigs.push(sig));
            assert(signatures(after)[sigs.len() as int] == sig);
        },
    }
}

proof fn lemma_down_slots_distinct(id: NodeId, kind: InteractionKind, bindings: Seq<KeyBindingSpec>)
    ensures
        signatures(spec_down_slots(id, kind, bindings)).no_duplicates(),
    decreases bindings.len(),
{
    if bindings.len() == 0 {
        assert(signatures(Seq::<UserKeySlotView>::empty()) =~= Seq::<SlotSignature>::empty());
    } else {
        let b = bindings.last();
        let sig = binding_signature(UserKeySlotPhase::Down, b);
        let prev = spec_down_slots(id, kind, bindings.drop_last());
        lemma_down_slots_distinct(id, kind, bindings.drop_last());
        let event = KeyBindingActionView::KeyDown { element_id: id, route: b.route@ };
        law_push_keeps_signatures_distinct(prev, sig, event);
        let with_event = spec_push_slot_action(prev, sig, event);
        law_push_keeps_signatures_distinct(
            with_event,
            sig,
            KeyBindingActionView::ArmTextCommitSuppression { element_id: id, key: b.key },
        );
    }
}

proof fn lemma_press_slots_distinct(start: Seq<UserKeySlotView>, id: NodeId, bindings: Seq<KeyBindingSpec>)
    requires
        signatures(start).no_duplicates(),
    ensures
        signatures(spec_press_slots(start, id, bindings)).no_duplicates(),
    decreases bindings.len(),
{
    if bindings.len() > 0 {
        let b = bindings.last();
        lemma_press_slots_distinct(start, id, bindings.drop_last());
        law_push_keeps_signatures_distinct(
            spec_press_slots(start, id, bindings.drop_last()),
            binding_signature(UserKeySlotPhase::Down, b),
            KeyBindingActionView::StartKeyPressTracker {
                source_element_id: Some(id),
                key: b.key,
                mods: b.mods,
                match_mode: b.match_mode,
                followups: seq![(id, b.route@)],
            },
        );
    }
}

proof fn lemma_up_slots_distinct(start: Seq<UserKeySlotView>, id: NodeId, bindings: Seq<KeyBindingSpec>)
    requires
        signatures(start).no_duplicates(),
    ensures
        signatures(spec_up_slots(start, id, bindings)).no_duplicates(),
    decreases bindings.len(),
{
    if bindings.len() > 0 {
        let b = bindings.last();
        lemma_up_slots_distinct(start, id, bindings.drop_last());
        law_push_keeps_signatures_distinct(
            spec_up_slots(start, id, bindings.drop_last()),
            binding_signature(UserKeySlotPhase::Up, b),
            KeyBindingActionView::KeyUp { element_id: id, route: b.route@ },
        );
    }
}

/// An element's key bindings give one listener per signature: no two slots
/// share phase, key, modifiers and match mode.
pub proof fn law_one_slot_per_signature(
    id: NodeId,
    kind: InteractionKind,
    on_key_down: Seq<KeyBindingSpec>,
    on_key_press: Seq<KeyBindingSpec>,
    on_key_up: Seq<KeyBindingSpec>,
)
    ensures
        signatures(spec_key_binding_slots(id, kind, on_key_down, on_key_press, on_key_up)).no_duplicates(),
{
    lemma_down_slots_distinct(id, kind, on_key_down);
    lemma_press_slots_distinct(spec_down_slots(id, kind, on_key_down), id, on_key_press);
    lemma_up_slots_distinct(
        spec_press_slots(spec_down_slots(id, kind, on_key_down), id, on_key_press),
        id,
        on_key_up,
    );
}

} // verus!
