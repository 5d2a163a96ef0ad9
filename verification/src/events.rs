//! Event dispatch: listener matching, the precedence-ordered listener
//! registry, and the plain-valued parts of registry assembly.
pub mod contributors;
pub mod followups;
pub mod hit_probe;
pub mod hover;
pub mod key_bindings;
pub mod overlay;
pub mod pointer_slots;
pub mod registry_builder;
pub mod registry_walk;
pub mod runtime_listeners;
pub mod semantic;
pub mod subtree_cache;
pub mod text_edit;
pub mod text_resolve;
