use vstd::prelude::*;

verus! {

/// Names a state snapshot.
#[derive(Clone, Copy, Debug)]
pub enum ID {
    Head,
    Genesis,
    Finalized,
    Justified,
    Slot(u64),
    Root([u8; 32]),
}

/// Names a validator within a snapshot.
#[derive(Clone, Copy, Debug)]
pub enum ValidatorID {
    Index(u64),
    Address([u8; 48]),
}

} // verus!
