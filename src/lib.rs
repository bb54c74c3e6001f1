//! Validator queries over beacon-chain state snapshots: single-validator
//! lookup by index or public key with a status relative to the head, and a
//! filtered, capped listing of balances.

pub mod balances;
pub mod error;
pub mod id;
pub mod query;
pub mod text;
pub mod types;
pub mod validator;
