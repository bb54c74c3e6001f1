use vstd::prelude::*;
use vstd::string::*;

use crate::error::{ApiError, StoreError};
use crate::id::{ValidatorID, ID};
use crate::text::{concat_message, decimal, hex_string, to_hex_string, u64_to_decimal};
use crate::types::{BeaconState, Validator};

verus! {

/// A validator's record with its index, balance and status.
#[derive(Debug)]
pub struct ValidatorData {
    pub index: u64,
    pub balance: u64,
    pub status: String,
    pub validator: Validator,
}

impl ValidatorData {
    pub fn new(index: u64, balance: u64, status: String, validator: Validator) -> (r: Self)
        ensures
            r.index == index,
            r.balance == balance,
            r.status == status,
            r.validator == validator,
    {
        Self { index, balance, status, validator }
    }
}

/// Whether position `i` of `vs` answers to `id`: for an index, that very
/// position; for a public key, the first validator that holds it.
pub open spec fn locates(vs: Seq<Validator>, id: ValidatorID, i: int) -> bool {
    match id {
        ValidatorID::Index(n) => i == n && n < vs.len(),
        ValidatorID::Address(k) => 0 <= i < vs.len() && vs[i].pubkey@ == k@
            && forall|j: int| 0 <= j < i ==> vs[j].pubkey@ != k@,
    }
}

/// Whether some validator of `vs` answers to `id`.
pub open spec fn has_match(vs: Seq<Validator>, id: ValidatorID) -> bool {
    match id {
        ValidatorID::Index(n) => n < vs.len(),
        ValidatorID::Address(k) => exists|i: int| 0 <= i < vs.len() && vs[i].pubkey@ == k@,
    }
}

/// The message of the error for a validator that is not there.
pub open spec fn not_found_message(id: ValidatorID) -> Seq<char> {
    match id {
        ValidatorID::Index(n) => "Validator not found for index: "@ + decimal(n as nat),
        ValidatorID::Address(k) => "Validator not found for pubkey: "@ + hex_string(k@),
    }
}

/// The status of a validator relative to the head snapshot.
pub open spec fn status_of(exit_epoch: u64, head_epoch: u64) -> Seq<char> {
    if exit_epoch < head_epoch {
        "offline"@
    } else {
        "active_ongoing"@
    }
}

fn same_pubkey(a: &[u8; 48], b: &[u8; 48]) -> (r: bool)
    ensures
        r == (a@ == b@),
{
    let mut i: usize = 0;
    while i < 48
        invariant
            i <= 48,
            a@.len() == 48,
            b@.len() == 48,
            forall|j: int| 0 <= j < i ==> a@[j] == b@[j],
        decreases 48 - i,
    {
        if a[i] != b[i] {
            return false;
        }
        i = i + 1;
    }
    assert(a@ =~= b@);
    true
}

/// The position of the validator that `validator_id` names in `state`.
pub fn find_validator(state: &BeaconState, validator_id: &ValidatorID) -> (r: Result<usize, ApiError>)
    ensures
        match r {
            Ok(i) => locates(state.validators@, *validator_id, i as int),
            Err(ApiError::ValidatorNotFound(m)) => !has_match(state.validators@, *validator_id)
                && m@ == not_found_message(*validator_id),
            Err(_) => false,
        },
        r is Ok <==> has_match(state.validators@, *validator_id),
{
    match validator_id {
        ValidatorID::Index(n) => {
            if (*n as u128) < (state.validators.len() as u128) {
                Ok(*n as usize)
            } else {
                Err(ApiError::ValidatorNotFound(
                    concat_message("Validator not found for index: ", u64_to_decimal(*n)),
                ))
            }
        },
        ValidatorID::Address(k) => {
            let mut i: usize = 0;
            while i < state.validators.len()
                invariant
                    i <= state.validators@.len(),
                    *validator_id == ValidatorID::Address(*k),
                    forall|j: int| 0 <= j < i ==> state.validators@[j].pubkey@ != k@,
                decreases state.validators@.len() - i,
            {
                if same_pubkey(&state.validators[i].pubkey, k) {
                    assert(locates(state.validators@, *validator_id, i as int));
                    return Ok(i);
                }
                i = i + 1;
            }
            Err(ApiError::ValidatorNotFound(
                concat_message("Validator not found for pubkey: ", to_hex_string(k)),
            ))
        },
    }
}

/// The status of `validator` against the head snapshot `head`: `offline` once
/// its exit epoch lies before the head's current epoch, else `active_ongoing`.
pub fn validator_status(validator: &Validator, head: &BeaconState) -> (r: String)
    ensures
        r@ == status_of(validator.exit_epoch, head.current_epoch()),
{
    if validator.exit_epoch < head.get_current_epoch() {
        String::from_str("offline")
    } else {
        String::from_str("active_ongoing")
    }
}

/// Every index below the registry's length names the validator at that
/// position, and no other.
pub proof fn lemma_index_lookup(vs: Seq<Validator>, n: u64)
    requires
        n < vs.len(),
    ensures
        has_match(vs, ValidatorID::Index(n)),
        forall|i: int| locates(vs, ValidatorID::Index(n), i) <==> i == n,
{
}

/// An index at or past the registry's length names no validator.
pub proof fn lemma_index_out_of_range(vs: Seq<Validator>, n: u64)
    requires
        n >= vs.len(),
    ensures
        !has_match(vs, ValidatorID::Index(n)),
{
}

/// A public key held by exactly one validator names that validator; one held
/// by none names nothing.
pub proof fn lemma_pubkey_lookup(vs: Seq<Validator>, k: [u8; 48])
    ensures
        forall|i: int|
            0 <= i < vs.len() && vs[i].pubkey@ == k@
                && (forall|j: int| 0 <= j < vs.len() && j != i ==> vs[j].pubkey@ != k@)
                ==> #[trigger] locates(vs, ValidatorID::Address(k), i),
        (forall|j: int| 0 <= j < vs.len() ==> vs[j].pubkey@ != k@)
            ==> !has_match(vs, ValidatorID::Address(k)),
{
}

/// The identifier of the head snapshot, from a read of the highest stored
/// slot: a failed read is an internal error, an empty chain has no head.
pub fn head_state_id(highest_slot: Result<Option<u64>, StoreError>) -> (r: Result<ID, ApiError>)
    ensures
        match highest_slot {
            Ok(Some(s)) => r == Ok::<ID, ApiError>(ID::Slot(s)),
            Ok(None) => match r {
                Err(ApiError::NotFound(m)) => m@ == "Failed to find highest slot"@,
                _ => false,
            },
            Err(_) => r is Err && r->Err_0 is InternalError,
        },
{
    match highest_slot {
        Ok(Some(s)) => Ok(ID::Slot(s)),
        Ok(None) => Err(ApiError::NotFound(String::from_str("Failed to find highest slot"))),
        Err(_) => Err(ApiError::InternalError),
    }
}

/// Answers a single-validator query against `state`, with the status taken
/// from the head snapshot `head` (or its failure).
pub fn get_validator_from_state(
    state: &BeaconState,
    validator_id: &ValidatorID,
    head: Result<BeaconState, ApiError>,
) -> (r: Result<ValidatorData, ApiError>)
    ensures
        !has_match(state.validators@, *validator_id) ==> match r {
            Err(ApiError::ValidatorNotFound(m)) => m@ == not_found_message(*validator_id),
            _ => false,
        },
        forall|i: int|
            #![trigger locates(state.validators@, *validator_id, i)]
            locates(state.validators@, *validator_id, i) && i >= state.balances@.len() ==> match r {
                Err(ApiError::NotFound(m)) => m@ == "Validator not found for index: "@ + decimal(i as nat),
                _ => false,
            },
        forall|i: int|
            #![trigger locates(state.validators@, *validator_id, i)]
            locates(state.validators@, *validator_id, i) && i < state.balances@.len() ==> match head {
                Err(e) => r == Err::<ValidatorData, ApiError>(e),
                Ok(h) => match r {
                    Ok(d) => d.index == i && d.balance == state.balances@[i]
                        && d.validator == state.validators@[i]
                        && d.status@ == status_of(state.validators@[i].exit_epoch, h.current_epoch()),
                    Err(_) => false,
                },
            },
{
    let index = find_validator(state, validator_id)?;
    if index >= state.balances.len() {
        return Err(ApiError::NotFound(
            concat_message("Validator not found for index: ", u64_to_decimal(index as u64)),
        ));
    }
    let balance = state.balances[index];
    let validator = state.validators[index];
    match head {
        Err(e) => Err(e),
        Ok(h) => {
            let status = validator_status(&validator, &h);
            Ok(ValidatorData::new(index as u64, balance, status, validator))
        },
    }
}

} // verus!
