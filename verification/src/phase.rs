//! The phase state machine: one engine owns the mutable lifecycle phase of
//! one actor, gates phase transitions, and stamps new events with the
//! current phase and the bound identity.

use vstd::prelude::*;

use crate::ledger::{OntoEvent, OntoPhase, Payload, ProfileId};
use crate::stamp;

verus! {

/// Error of a disallowed phase transition; the engine's state is unchanged.
#[derive(Clone, Copy, Debug, PartialEq, Eq, Structural)]
pub enum PhaseError {
    InvalidTransition,
}

/// The full transition table. `Fast -> Slow` is always allowed (reflection
/// may interrupt reaction); `Heyday -> Decline` is always allowed (synthesis
/// may be deconstructed); entering `Fast` is allowed only from `Decline`
/// (reaction is only legitimate as a response to a crisis state) or as a
/// self-transition; every other target is allowed unconditionally.
pub open spec fn transition_allowed(from: OntoPhase, to: OntoPhase) -> bool {
    match (from, to) {
        (OntoPhase::Fast, OntoPhase::Fast) => true,
        (OntoPhase::Fast, OntoPhase::Slow) => true,
        (OntoPhase::Fast, OntoPhase::Heyday) => true,
        (OntoPhase::Fast, OntoPhase::Decline) => true,
        (OntoPhase::Slow, OntoPhase::Fast) => false,
        (OntoPhase::Slow, OntoPhase::Slow) => true,
        (OntoPhase::Slow, OntoPhase::Heyday) => true,
        (OntoPhase::Slow, OntoPhase::Decline) => true,
        (OntoPhase::Heyday, OntoPhase::Fast) => false,
        (OntoPhase::Heyday, OntoPhase::Slow) => true,
        (OntoPhase::Heyday, OntoPhase::Heyday) => true,
        (OntoPhase::Heyday, OntoPhase::Decline) => true,
        (OntoPhase::Decline, OntoPhase::Fast) => true,
        (OntoPhase::Decline, OntoPhase::Slow) => true,
        (OntoPhase::Decline, OntoPhase::Heyday) => true,
        (OntoPhase::Decline, OntoPhase::Decline) => true,
    }
}

/// Transition legality in one sentence: a transition is allowed exactly when
/// its target is not `Fast`, or it starts from `Decline`, or it keeps the
/// phase unchanged.
pub proof fn lemma_transition_table()
    ensures
        forall|from: OntoPhase, to: OntoPhase|
            transition_allowed(from, to) <==> (to != OntoPhase::Fast || from == OntoPhase::Decline
                || from == to),
{
}

/// The transition table, decided executably.
fn transition_allowed_exec(from: OntoPhase, to: OntoPhase) -> (r: bool)
    ensures
        r == transition_allowed(from, to),
{
    match (from, to) {
        (OntoPhase::Slow, OntoPhase::Fast) => false,
        (OntoPhase::Heyday, OntoPhase::Fast) => false,
        _ => true,
    }
}

impl OntoPhase {
    /// The phase's name.
    pub open spec fn spec_name(self) -> Seq<char> {
        match self {
            OntoPhase::Fast => "Fast"@,
            OntoPhase::Decline => "Decline"@,
            OntoPhase::Slow => "Slow"@,
            OntoPhase::Heyday => "Heyday"@,
        }
    }

    /// The phase's name, as a string slice.
    pub fn name(&self) -> (r: &'static str)
        ensures
            r@ == self.spec_name(),
    {
        match self {
            OntoPhase::Fast => "Fast",
            OntoPhase::Decline => "Decline",
            OntoPhase::Slow => "Slow",
            OntoPhase::Heyday => "Heyday",
        }
    }

    /// The phase named `s`, if any.
    pub fn from_name(s: &str) -> (r: Option<OntoPhase>)
        ensures
            match r {
                Some(p) => s@ == p.spec_name(),
                None => forall|p: OntoPhase| s@ != p.spec_name(),
            },
    {
        if crate::text::str_eq(s, "Fast") {
            Some(OntoPhase::Fast)
        } else if crate::text::str_eq(s, "Decline") {
            Some(OntoPhase::Decline)
        } else if crate::text::str_eq(s, "Slow") {
            Some(OntoPhase::Slow)
        } else if crate::text::str_eq(s, "Heyday") {
            Some(OntoPhase::Heyday)
        } else {
            proof {
                assert forall|p: OntoPhase| s@ != p.spec_name() by {
                    match p {
                        OntoPhase::Fast => {},
                        OntoPhase::Decline => {},
                        OntoPhase::Slow => {},
                        OntoPhase::Heyday => {},
                    }
                }
            }
            None
        }
    }
}

/// The state machine owning one actor's current lifecycle phase.
pub struct PhaseEngine {
    current_phase: OntoPhase,
    profile: ProfileId,
}

impl PhaseEngine {
    /// The phase the engine is in.
    pub closed spec fn spec_phase(&self) -> OntoPhase {
        self.current_phase
    }

    /// The identity the engine is bound to.
    pub closed spec fn spec_profile(&self) -> Seq<char> {
        self.profile@
    }

    /// An engine bound to `profile`, starting in `initial_phase`.
    pub fn new(initial_phase: OntoPhase, profile: ProfileId) -> (r: Self)
        ensures
            r.spec_phase() == initial_phase,
            r.spec_profile() == profile@,
    {
        PhaseEngine { current_phase: initial_phase, profile }
    }

    /// The currently active phase.
    pub fn current_phase(&self) -> (r: &OntoPhase)
        ensures
            *r == self.spec_phase(),
    {
        &self.current_phase
    }

    /// Moves to `new_phase` when the transition table allows it; on a
    /// disallowed transition the state is unchanged and an error is
    /// returned — no partial mutation occurs.
    pub fn transition_to(&mut self, new_phase: OntoPhase) -> (r: Result<(), PhaseError>)
        ensures
            r is Ok <==> transition_allowed(old(self).spec_phase(), new_phase),
            r is Ok ==> final(self).spec_phase() == new_phase,
            r is Err ==> final(self).spec_phase() == old(self).spec_phase() && r == Err::<
                (),
                PhaseError,
            >(PhaseError::InvalidTransition),
            final(self).spec_profile() == old(self).spec_profile(),
    {
        if transition_allowed_exec(self.current_phase, new_phase) {
            self.current_phase = new_phase;
            Ok(())
        } else {
            Err(PhaseError::InvalidTransition)
        }
    }

    /// Builds an event stamped with the current phase and the bound
    /// identity, a fresh unique id and the current time. The causal hash is
    /// left unset: linking into the causal chain is the caller's
    /// responsibility. This operation never fails; validation happens
    /// downstream in the policy pipeline.
    pub fn emit_event(&self, payload: Payload, social_proximity: u8) -> (e: OntoEvent)
        ensures
            e@.profile == self.spec_profile(),
            e@.phase == self.spec_phase(),
            e@.payload == payload@,
            e@.proximity == social_proximity,
            e@.causal is None,
            e@.id.len() == 36,
    {
        OntoEvent {
            id: stamp::fresh_event_id(),
            profile_id: self.profile.clone(),
            phase: self.current_phase,
            payload,
            social_proximity,
            causal_hash: None,
            timestamp: stamp::current_millis(),
        }
    }
}

} // verus!
