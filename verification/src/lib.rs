use vstd::prelude::*;

pub mod diagnostics;
pub mod events;
pub mod input;
pub mod keys;
pub mod render_scene;
pub mod text;

verus! {

} // verus!
