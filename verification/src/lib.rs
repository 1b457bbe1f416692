//! Storage layer of a card vault: merchants with their data-encryption keys,
//! and locker entries holding encrypted payment data.
//!
//! Everything that computes stands here and is verified: the records and how
//! they are sealed and unsealed with a merchant key, and the decision logic of
//! each storage operation. Talking to the database is left to the caller,
//! which drives the operations as state machines (see [`db`]).

pub mod crypto;
pub mod db;
pub mod error;
pub mod types;

use vstd::prelude::*;

verus! {

/// Marker for the state that the application passes around.
pub trait State {
}

} // verus!
