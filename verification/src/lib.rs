//! A governed event log: every recorded action carries an actor identity, a
//! lifecycle phase and a causal link, and every event is screened by an
//! ordered policy pipeline before being admitted to the ledger.

pub mod attribution;
pub mod batch;
pub mod darwin;
pub mod did;
pub mod energy;
pub mod harm;
pub mod hub;
pub mod ledger;
pub mod license;
pub mod meta;
pub mod mirror;
pub mod phase;
pub mod registry;
pub mod scan;
pub mod stamp;
pub mod text;
pub mod tracing;
pub mod validator;

use vstd::prelude::*;

verus! {

/// The number of identity records a complete registry must hold.
pub const REGISTRY_SIZE: usize = 144;

} // verus!
