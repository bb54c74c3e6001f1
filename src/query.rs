use vstd::prelude::*;

verus! {

/// Query parameters of a RANDAO request.
#[derive(Debug)]
pub struct RandaoQuery {
    pub epoch: Option<u64>,
}

/// Query parameters of a balance request: the identifiers to keep, each a
/// decimal index or a hex public key; absent or empty keeps every validator.
#[derive(Debug)]
pub struct ValidatorBalanceQuery {
    pub id: Option<Vec<String>>,
}

} // verus!
