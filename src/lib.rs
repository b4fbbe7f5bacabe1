use vstd::prelude::*;

pub mod address;
pub mod bootstrap;
pub mod interpose;
pub mod layout;
pub mod listen;
pub mod overlay;
pub mod variant;

verus! {

} // verus!
