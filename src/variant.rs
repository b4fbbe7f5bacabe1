use vstd::prelude::*;

verus! {

/// A known release of the host binary. Each has its own offset table and
/// its own overlay layouts; a build of the hook picks one.
#[derive(Clone, Copy, Debug, PartialEq, Eq, Structural)]
pub enum BuildVariant {
    Manifest4932913164832566208,
    Manifest808827202674972462,
}

} // verus!
