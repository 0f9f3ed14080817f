pub mod color;
pub mod control;
pub mod effects;
pub mod events;
pub mod mailbox;
pub mod matrix;
pub mod pattern;
pub mod scene;

use vstd::prelude::*;

verus! {

} // verus!
