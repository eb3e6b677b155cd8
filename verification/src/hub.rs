//! The publication collaborator's error contract. Publication itself —
//! transport, discovery, protocol — is entirely the collaborator's concern
//! and lives outside the verified core.

use vstd::prelude::*;

verus! {

/// Why a publication to the public hub fails.
#[derive(Clone, Copy, Debug, PartialEq, Eq, Structural)]
pub enum HubError {
    Serialization,
    Network,
    NotImplemented,
}

} // verus!
