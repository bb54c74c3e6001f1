use vstd::prelude::*;

verus! {

/// The ways a validator query fails.
#[derive(Debug)]
pub enum ApiError {
    /// A state, the highest slot, or a balance entry is missing.
    NotFound(String),
    /// No validator answers to the requested index or public key.
    ValidatorNotFound(String),
    /// The balance filter names more identifiers than allowed.
    TooManyValidatorIds(String),
    /// The store could not be read.
    InternalError,
}

/// A read of the state store that failed.
#[derive(Clone, Copy, Debug)]
pub struct StoreError;

} // verus!
