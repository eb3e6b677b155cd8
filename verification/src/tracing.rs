//! Law II — tracing: every representation must carry its provenance.

use vstd::prelude::*;

use crate::ledger::{EventView, OntoEvent, OntoPhase};

verus! {

/// Why an event fails tracing.
#[derive(Clone, Copy, Debug, PartialEq, Eq, Structural)]
pub enum TracingError {
    /// The event is outside the `Fast` phase and has no causal link.
    MissingCausalHash,
    /// A `Fast`-phase event carries no social context.
    FastPhaseWithoutContext,
    /// The social proximity lies outside 0..=100.
    SocialProximityOutOfBounds,
}

/// What Law II decides for an event. Outside the `Fast` phase a causal link
/// is mandatory; `Fast`-phase events are exempt from it, reflecting their
/// reactive nature, but must carry social context (proximity nonzero); and
/// the proximity may not exceed 100.
pub open spec fn tracing_spec(e: EventView) -> Result<(), TracingError> {
    if e.causal is None && e.phase != OntoPhase::Fast {
        Err(TracingError::MissingCausalHash)
    } else if e.phase == OntoPhase::Fast && e.proximity == 0 {
        Err(TracingError::FastPhaseWithoutContext)
    } else if e.proximity > 100 {
        Err(TracingError::SocialProximityOutOfBounds)
    } else {
        Ok(())
    }
}

/// Law II: mandatory tracing of an event's provenance.
pub fn enforce_tracing(event: &OntoEvent) -> (r: Result<(), TracingError>)
    ensures
        r == tracing_spec(event@),
{
    if event.causal_hash.is_none() && !matches!(event.phase, OntoPhase::Fast) {
        Err(TracingError::MissingCausalHash)
    } else if matches!(event.phase, OntoPhase::Fast) && event.social_proximity == 0 {
        Err(TracingError::FastPhaseWithoutContext)
    } else if event.social_proximity > 100 {
        Err(TracingError::SocialProximityOutOfBounds)
    } else {
        Ok(())
    }
}

/// A `Fast`-phase event with proximity 0 fails for want of context, even
/// when its causal hash is set.
pub proof fn lemma_fast_without_context_fails(e: EventView)
    requires
        e.phase == OntoPhase::Fast,
        e.proximity == 0,
    ensures
        tracing_spec(e) == Err::<(), TracingError>(TracingError::FastPhaseWithoutContext),
{
}

/// An event outside the `Fast` phase with no causal hash fails for want of
/// a causal link.
pub proof fn lemma_missing_causal_fails(e: EventView)
    requires
        e.causal is None,
        e.phase != OntoPhase::Fast,
    ensures
        tracing_spec(e) == Err::<(), TracingError>(TracingError::MissingCausalHash),
{
}

/// A proximity above 100 fails as out of range in every phase, for every
/// event that the earlier rules do not already reject (those with a causal
/// link, and `Fast`-phase events in general).
pub proof fn lemma_proximity_out_of_range_fails(e: EventView)
    requires
        e.proximity > 100,
        e.causal is Some || e.phase == OntoPhase::Fast,
    ensures
        tracing_spec(e) == Err::<(), TracingError>(TracingError::SocialProximityOutOfBounds),
{
}

} // verus!
