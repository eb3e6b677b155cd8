//! Law III — harm witnessing: harmful events are detected and witnessed,
//! never silently erased. Detection alone does not block admission; callers
//! decide whether to reject, log or escalate, and a detected harm yields a
//! witness that re-enters the pipeline as an ordinary event.

use vstd::prelude::*;
use vstd::string::StringExecFns;

use crate::attribution::{attribution_spec, enforce_attribution, AttributionError};
use crate::ledger::{str_opt_view, EventView, OntoEvent, OntoPhase, Payload, ProfileId};
use crate::stamp;
use crate::text;
use crate::tracing::{enforce_tracing, tracing_spec, TracingError};

verus! {

/// The harm categories, in the order they are checked.
#[derive(Clone, Copy, Debug, PartialEq, Eq, Structural)]
pub enum HarmType {
    /// External control of the actor.
    AENGAViolation,
    /// Extraction of biometric data without revocable consent.
    BiometricExploitation,
    /// Injection of energy or value-scoring metrics.
    EnergyValueInjection,
    /// An attempt to bypass the ethics modules.
    EthicsModuleBypass,
}

/// What Law III detects in the serialized payload text, by ASCII
/// case-insensitive substring match, in this fixed category order:
/// external-control markers first, then unconsented biometrics (the marker
/// of revocable consent suppresses the category), then energy or
/// value-scoring metrics, then ethics-bypass markers.
pub open spec fn harm_spec(text: Seq<char>) -> Option<HarmType> {
    if text::contains_ci(text, "remote_control"@) || text::contains_ci(text, "override_ethics"@) {
        Some(HarmType::AENGAViolation)
    } else if text::contains_ci(text, "biometric"@) && !text::contains_ci(
        text,
        "revocable_consent"@,
    ) {
        Some(HarmType::BiometricExploitation)
    } else if text::contains_ci(text, "energy"@) || text::contains_ci(text, "value_score"@) {
        Some(HarmType::EnergyValueInjection)
    } else if text::contains_ci(text, "skip_ethics"@) || text::contains_ci(text, "bypass_law"@) {
        Some(HarmType::EthicsModuleBypass)
    } else {
        None
    }
}

/// Law III, detection: classifies an event's payload text, or finds no harm.
pub fn detect_harm(event: &OntoEvent) -> (r: Option<HarmType>)
    ensures
        r == harm_spec(event@.payload.text),
{
    let t = event.payload.text.as_str();
    if text::str_contains_ci(t, "remote_control") || text::str_contains_ci(t, "override_ethics") {
        Some(HarmType::AENGAViolation)
    } else if text::str_contains_ci(t, "biometric") && !text::str_contains_ci(
        t,
        "revocable_consent",
    ) {
        Some(HarmType::BiometricExploitation)
    } else if text::str_contains_ci(t, "energy") || text::str_contains_ci(t, "value_score") {
        Some(HarmType::EnergyValueInjection)
    } else if text::str_contains_ci(t, "skip_ethics") || text::str_contains_ci(t, "bypass_law") {
        Some(HarmType::EthicsModuleBypass)
    } else {
        None
    }
}

/// A payload whose text holds `override_ethics`, in any letter case, always
/// classifies as an external-control violation: that category is checked
/// before the ethics-bypass one.
pub proof fn lemma_override_ethics_is_control_violation(text: Seq<char>)
    requires
        text::contains_ci(text, "override_ethics"@),
    ensures
        harm_spec(text) == Some(HarmType::AENGAViolation),
{
}

/// A payload whose text names revocable consent is never classified as
/// biometric exploitation: present consent suppresses that category.
pub proof fn lemma_consent_suppresses_biometric(text: Seq<char>)
    requires
        text::contains_ci(text, "revocable_consent"@),
    ensures
        harm_spec(text) != Some(HarmType::BiometricExploitation),
{
}

/// A derived record asserting that a specific event exhibited a named harm.
#[derive(Debug)]
pub struct HarmWitness {
    pub detected_harm: HarmType,
    pub violating_event_id: String,
    pub witness_profile: ProfileId,
    pub timestamp: u64,
    pub evidence: String,
}

/// Mathematical model of a harm witness.
#[verifier::ext_equal]
pub struct WitnessView {
    pub harm: HarmType,
    pub event_id: Seq<char>,
    pub profile: Seq<char>,
    pub timestamp: u64,
    pub evidence: Seq<char>,
}

impl View for HarmWitness {
    type V = WitnessView;

    open spec fn view(&self) -> WitnessView {
        WitnessView {
            harm: self.detected_harm,
            event_id: self.violating_event_id@,
            profile: self.witness_profile@,
            timestamp: self.timestamp,
            evidence: self.evidence@,
        }
    }
}

/// The keys of the entries, joined with a comma and a space.
pub open spec fn joined_keys(es: Seq<crate::ledger::EntryView>) -> Seq<char>
    decreases es.len(),
{
    if es.len() == 0 {
        Seq::empty()
    } else if es.len() == 1 {
        es[0].key
    } else {
        joined_keys(es.drop_last()) + ", "@ + es.last().key
    }
}

/// The evidence summary recorded for a violating event: its phase and the
/// top-level keys of its payload.
pub open spec fn evidence_spec(e: EventView) -> Seq<char> {
    "Phase: "@ + e.phase.spec_name() + ", payload keys: "@ + (match e.payload.entries {
        Some(es) => "["@ + joined_keys(es) + "]"@,
        None => "none"@,
    })
}

/// The keys of the payload entries, rendered as a bracketed list.
fn render_keys(es: &Vec<crate::ledger::PayloadEntry>) -> (r: String)
    ensures
        r@ == "["@ + joined_keys(crate::ledger::entry_views(es@)) + "]"@,
{
    let ghost views = crate::ledger::entry_views(es@);
    let mut acc = String::from_str("[");
    let mut i: usize = 0;
    while i < es.len()
        invariant
            0 <= i <= es@.len(),
            views == crate::ledger::entry_views(es@),
            views.len() == es@.len(),
            acc@ == "["@ + joined_keys(views.take(i as int)),
        decreases es@.len() - i,
    {
        if i > 0 {
            acc.append(", ");
        }
        acc.append(es[i].key.as_str());
        proof {
            let t = views.take(i + 1);
            assert(t.drop_last() =~= views.take(i as int));
            assert(t.last() == views[i as int]);
            assert(views[i as int].key == es@[i as int]@.key);
            if i == 0 {
                assert(joined_keys(t) == views[0].key);
            }
        }
        i += 1;
    }
    assert(views.take(views.len() as int) =~= views);
    acc.append("]");
    acc
}

/// Law III, witnessing: a pure record of the detected harm, stamped with the
/// reporting identity, the current time, and an evidence summary naming the
/// violating event's phase and payload keys.
pub fn generate_harm_witness(
    harm: HarmType,
    violating_event: &OntoEvent,
    witness_profile: ProfileId,
) -> (r: HarmWitness)
    ensures
        r@.harm == harm,
        r@.event_id == violating_event@.id,
        r@.profile == witness_profile@,
        r@.evidence == evidence_spec(violating_event@),
{
    let mut evidence = String::from_str("Phase: ");
    evidence.append(violating_event.phase.name());
    evidence.append(", payload keys: ");
    match &violating_event.payload.entries {
        Some(es) => {
            let keys = render_keys(es);
            evidence.append(keys.as_str());
        },
        None => {
            evidence.append("none");
        },
    }
    HarmWitness {
        detected_harm: harm,
        violating_event_id: violating_event.id.clone(),
        witness_profile,
        timestamp: stamp::current_millis(),
        evidence,
    }
}

/// Why a witness event cannot itself be admitted: it failed Law I or Law II.
#[derive(Clone, Copy, Debug, PartialEq, Eq, Structural)]
pub enum WitnessRejected {
    Attribution(AttributionError),
    Tracing(TracingError),
}

/// What re-validation decides for a witness event: Law I first, then Law II.
pub open spec fn witness_validation_spec(e: EventView) -> Result<(), WitnessRejected> {
    match attribution_spec(e) {
        Err(a) => Err(WitnessRejected::Attribution(a)),
        Ok(_) => match tracing_spec(e) {
            Err(t) => Err(WitnessRejected::Tracing(t)),
            Ok(_) => Ok(()),
        },
    }
}

/// Re-wraps a witness as a new event in the `Slow` phase with maximal
/// social proximity, carrying the given payload and causal link and a fresh
/// id, ready to re-enter the pipeline.
pub fn build_witness_event(witness: &HarmWitness, payload: Payload, causal_hash: Option<String>) -> (e:
    OntoEvent)
    ensures
        e@.profile == witness@.profile,
        e@.phase == OntoPhase::Slow,
        e@.proximity == 100,
        e@.payload == payload@,
        e@.causal == str_opt_view(causal_hash),
        e@.timestamp == witness@.timestamp,
        e@.id.len() == 36,
{
    OntoEvent {
        id: stamp::fresh_event_id(),
        profile_id: witness.witness_profile.clone(),
        phase: OntoPhase::Slow,
        payload,
        social_proximity: 100,
        causal_hash,
        timestamp: witness.timestamp,
    }
}

/// The witness event itself must independently satisfy attribution and
/// tracing before it is handed to the publication collaborator: a witness
/// that cannot be attributed or traced is rejected, never silently promoted.
pub fn validate_witness_event(event: &OntoEvent) -> (r: Result<(), WitnessRejected>)
    ensures
        r == witness_validation_spec(event@),
{
    match enforce_attribution(event) {
        Err(a) => Err(WitnessRejected::Attribution(a)),
        Ok(_) => match enforce_tracing(event) {
            Err(t) => Err(WitnessRejected::Tracing(t)),
            Ok(_) => Ok(()),
        },
    }
}

} // verus!
