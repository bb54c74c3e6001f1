use vstd::prelude::*;

verus! {

/// Slots in one epoch.
pub const SLOTS_PER_EPOCH: u64 = 32;

/// A state snapshot: the validator registry and the balances, co-indexed.
#[derive(Debug)]
pub struct BeaconState {
    pub slot: u64,
    pub validators: Vec<Validator>,
    pub balances: Vec<u64>,
}

/// One validator record.
#[derive(Clone, Copy, PartialEq, Eq, Debug)]
pub struct Validator {
    pub pubkey: [u8; 48],
    pub withdrawal_credentials: [u8; 32],
    pub effective_balance: u64,
    pub slashed: bool,
    pub activation_eligibility_epoch: u64,
    pub activation_epoch: u64,
    pub exit_epoch: u64,
    pub withdrawable_epoch: u64,
}

impl BeaconState {
    pub open spec fn current_epoch(&self) -> u64 {
        self.slot / SLOTS_PER_EPOCH
    }

    /// The epoch that holds the snapshot's slot.
    pub fn get_current_epoch(&self) -> (r: u64)
        ensures
            r == self.current_epoch(),
    {
        self.slot / SLOTS_PER_EPOCH
    }
}

} // verus!
