use vstd::prelude::*;

verus! {

/// Placeholder identifier for a scene entity; carries no behaviour yet.
#[derive(Clone, Copy, Debug, PartialEq, Eq, Hash, Structural)]
pub struct EntityId(pub u64);

/// Placeholder identifier for a world; carries no behaviour yet.
#[derive(Clone, Copy, Debug, PartialEq, Eq, Hash, Structural)]
pub struct WorldId(pub u64);

} // verus!
