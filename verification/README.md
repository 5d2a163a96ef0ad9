# emerge_skia

Event-dispatch and render-scene logic of the emerge_skia native renderer,
verified with Verus.

## Layout

- `src/input.rs`, `src/input/`: input events as the dispatcher reads them,
  mask filtering, modifier packing, commit-text normalization, pointer
  button labels.
- `src/text.rs`: control-character filtering and text-input sanitizing.
- `src/events/registry_builder.rs`: listener matchers, the
  precedence-ordered listener registry and layered views, focus order,
  focus-on-mount, build accumulators, built-in listeners.
- `src/events/contributors.rs`: what an element's interaction attributes
  contribute to its listeners.
- `src/events/key_bindings.rs`: user key-binding slots and listeners.
- `src/events/runtime_listeners.rs`: listeners of in-flight interactions.
- `src/events/followups.rs`: release followups and text commits.
- `src/events/semantic.rs`: focus moves and the clipboard cache of a dispatch.
- `src/events/text_resolve.rs`: text-input edits and clipboard commands
  resolved against a snapshot of the input.
- `src/events/overlay.rs`: the overlay listeners of in-flight interactions,
  in precedence order.
- `src/events/pointer_slots.rs`: an element's left-press, left-release,
  Enter and text-commit slots.
- `src/events/subtree_cache.rs`, `src/events/registry_walk.rs`: the
  subtree-cache decision of a registry rebuild and the order in which a
  rebuild visits a tree.
- `src/events/hover.rs`, `src/events/text_edit.rs`: hover-stack
  reconciliation and text-cursor navigation requests.
- `src/keys.rs`: canonical keys and their atom names.
- `src/render_scene.rs`: scene summaries, paint-layer queries, paint-layer
  content splitting and cost metrics.
- `src/diagnostics.rs`: registry-build diagnostics counters.
- `app/`: the floating-point input event of the platform backends, its
  encoding into Elixir terms, and per-thread diagnostics.

Pointer coordinates, scroll deltas, scale factors, colors and geometry are
floating-point data; the verified code never reads them, and its types
carry the remaining fields.
