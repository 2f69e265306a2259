use vstd::prelude::*;

pub mod sock;
pub mod text;
pub mod events;
pub mod controller;
pub mod state;

verus! {

} // verus!
