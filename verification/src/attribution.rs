//! Law I — attribution: no event may exist without a traceable actor.

use vstd::prelude::*;

use crate::ledger::{EventView, OntoEvent, ProfileId};
use crate::text;

verus! {

/// Why an event fails attribution.
#[derive(Clone, Copy, Debug, PartialEq, Eq, Structural)]
pub enum AttributionError {
    /// The identity is empty or the anonymous sentinel.
    UnattributedAction,
    /// The identity does not have the three-part registry shape.
    ProfileNotFound,
    /// An event explicitly marked anonymous.
    AnonymousEventRejected,
}

/// The identity has the three-part shape `Category-Subcategory-Variant`:
/// exactly two separators.
pub open spec fn valid_profile_shape(p: Seq<char>) -> bool {
    text::count_occ(p, '-') == 2
}

/// What Law I decides for an event: the empty identity and the sentinel
/// `anonymous` are unattributed; an identity without the three-part shape is
/// not found; every other event passes. Registry membership is the caller's
/// responsibility, through the identity registry.
pub open spec fn attribution_spec(e: EventView) -> Result<(), AttributionError> {
    if e.profile.len() == 0 || e.profile == "anonymous"@ {
        Err(AttributionError::UnattributedAction)
    } else if !valid_profile_shape(e.profile) {
        Err(AttributionError::ProfileNotFound)
    } else {
        Ok(())
    }
}

/// The three-part shape check on an identity.
pub fn is_valid_profile_id(profile: &ProfileId) -> (r: bool)
    ensures
        r == valid_profile_shape(profile@),
{
    text::str_count_char(profile.0.as_str(), '-') == 2
}

/// Law I: mandatory attribution of an action to an identity.
pub fn enforce_attribution(event: &OntoEvent) -> (r: Result<(), AttributionError>)
    ensures
        r == attribution_spec(event@),
{
    if event.profile_id.0.as_str().is_empty() || text::str_eq(
        event.profile_id.0.as_str(),
        "anonymous",
    ) {
        Err(AttributionError::UnattributedAction)
    } else if !is_valid_profile_id(&event.profile_id) {
        Err(AttributionError::ProfileNotFound)
    } else {
        Ok(())
    }
}

/// An event whose identity is empty or `anonymous` always fails attribution
/// as unattributed, whatever its other fields hold.
pub proof fn lemma_unattributed_always_fails(e: EventView)
    requires
        e.profile.len() == 0 || e.profile == "anonymous"@,
    ensures
        attribution_spec(e) == Err::<(), AttributionError>(AttributionError::UnattributedAction),
{
}

/// A non-empty, non-anonymous identity without exactly two separators always
/// fails attribution as not found, whatever the event's other fields hold.
pub proof fn lemma_malformed_identity_fails(e: EventView)
    requires
        e.profile.len() > 0,
        e.profile != "anonymous"@,
        !valid_profile_shape(e.profile),
    ensures
        attribution_spec(e) == Err::<(), AttributionError>(AttributionError::ProfileNotFound),
{
}

} // verus!
