use ontocms::attribution::{enforce_attribution, is_valid_profile_id, AttributionError};
use ontocms::energy::detect_energy_injection;
use ontocms::harm::{
    build_witness_event, detect_harm, generate_harm_witness, validate_witness_event, HarmType,
    WitnessRejected,
};
use ontocms::ledger::{OntoEvent, OntoPhase, Payload, PayloadEntry, ProfileId};
use ontocms::tracing::{enforce_tracing, TracingError};

fn event_with(profile: &str, phase: OntoPhase, proximity: u8, causal: Option<&str>) -> OntoEvent {
    OntoEvent {
        id: String::from("e-1"),
        profile_id: ProfileId(String::from(profile)),
        phase,
        payload: Payload { text: String::from("{}"), entries: None },
        social_proximity: proximity,
        causal_hash: causal.map(String::from),
        timestamp: 1000,
    }
}

fn payload_event(text: &str) -> OntoEvent {
    let mut e = event_with("Aries-Wood-Rabbit", OntoPhase::Slow, 50, Some("prior"));
    e.payload = Payload { text: String::from(text), entries: None };
    e
}

#[test]
fn attribution_rejects_empty_identity() {
    let e = event_with("", OntoPhase::Slow, 50, Some("prior"));
    assert!(matches!(enforce_attribution(&e), Err(AttributionError::UnattributedAction)));
}

#[test]
fn attribution_rejects_anonymous() {
    let e = event_with("anonymous", OntoPhase::Fast, 99, Some("prior"));
    assert!(matches!(enforce_attribution(&e), Err(AttributionError::UnattributedAction)));
}

#[test]
fn attribution_rejects_malformed_identity() {
    let e = event_with("Aries-Wood", OntoPhase::Slow, 50, Some("prior"));
    assert!(matches!(enforce_attribution(&e), Err(AttributionError::ProfileNotFound)));
    let e = event_with("AriesWoodRabbit", OntoPhase::Slow, 50, Some("prior"));
    assert!(matches!(enforce_attribution(&e), Err(AttributionError::ProfileNotFound)));
    let e = event_with("A-B-C-D", OntoPhase::Slow, 50, Some("prior"));
    assert!(matches!(enforce_attribution(&e), Err(AttributionError::ProfileNotFound)));
}

#[test]
fn attribution_accepts_three_part_identity() {
    let e = event_with("Aries-Wood-Rabbit", OntoPhase::Slow, 50, Some("prior"));
    assert!(enforce_attribution(&e).is_ok());
    assert!(is_valid_profile_id(&ProfileId(String::from("Aries-Wood-Rabbit"))));
    assert!(!is_valid_profile_id(&ProfileId(String::from("Aries"))));
}

#[test]
fn tracing_fast_without_context_fails_even_with_causal_hash() {
    let e = event_with("Aries-Wood-Rabbit", OntoPhase::Fast, 0, Some("prior"));
    assert!(matches!(enforce_tracing(&e), Err(TracingError::FastPhaseWithoutContext)));
}

#[test]
fn tracing_non_fast_without_causal_hash_fails() {
    let e = event_with("Aries-Wood-Rabbit", OntoPhase::Slow, 50, None);
    assert!(matches!(enforce_tracing(&e), Err(TracingError::MissingCausalHash)));
}

#[test]
fn tracing_proximity_out_of_bounds_fails_in_every_phase() {
    for phase in [OntoPhase::Fast, OntoPhase::Decline, OntoPhase::Slow, OntoPhase::Heyday] {
        let e = event_with("Aries-Wood-Rabbit", phase, 101, Some("prior"));
        assert!(matches!(enforce_tracing(&e), Err(TracingError::SocialProximityOutOfBounds)));
    }
}

#[test]
fn tracing_accepts_fast_with_context_and_no_causal_hash() {
    let e = event_with("Aries-Wood-Rabbit", OntoPhase::Fast, 1, None);
    assert!(enforce_tracing(&e).is_ok());
    let e = event_with("Aries-Wood-Rabbit", OntoPhase::Decline, 70, Some("prior"));
    assert!(enforce_tracing(&e).is_ok());
}

#[test]
fn harm_override_ethics_is_control_violation() {
    let e = payload_event(r#"{"action":"override_ethics"}"#);
    assert!(matches!(detect_harm(&e), Some(HarmType::AENGAViolation)));
    let e = payload_event(r#"{"action":"OVERRIDE_Ethics"}"#);
    assert!(matches!(detect_harm(&e), Some(HarmType::AENGAViolation)));
}

#[test]
fn harm_remote_control_detected() {
    let e = payload_event(r#"{"cmd":"Remote_Control"}"#);
    assert!(matches!(detect_harm(&e), Some(HarmType::AENGAViolation)));
}

#[test]
fn harm_consent_suppresses_biometric() {
    let e = payload_event(r#"{"biometric":"scan","revocable_consent":true}"#);
    assert!(detect_harm(&e).is_none());
    let e = payload_event(r#"{"biometric":"scan"}"#);
    assert!(matches!(detect_harm(&e), Some(HarmType::BiometricExploitation)));
}

#[test]
fn harm_energy_and_bypass_categories() {
    let e = payload_event(r#"{"value_score":9}"#);
    assert!(matches!(detect_harm(&e), Some(HarmType::EnergyValueInjection)));
    let e = payload_event(r#"{"plan":"skip_ethics"}"#);
    assert!(matches!(detect_harm(&e), Some(HarmType::EthicsModuleBypass)));
    let e = payload_event(r#"{"plan":"bypass_law"}"#);
    assert!(matches!(detect_harm(&e), Some(HarmType::EthicsModuleBypass)));
    let e = payload_event(r#"{"plan":"garden"}"#);
    assert!(detect_harm(&e).is_none());
}

#[test]
fn energy_injection_detected() {
    let e = payload_event(r#"{"Energy_State":"full"}"#);
    assert!(matches!(detect_energy_injection(&e), Some(HarmType::EnergyValueInjection)));
    let e = payload_event(r#"{"mood":"calm"}"#);
    assert!(detect_energy_injection(&e).is_none());
}

#[test]
fn witness_records_violation() {
    let mut violating = payload_event(r#"{"biometric":"scan"}"#);
    violating.payload.entries = Some(vec![
        PayloadEntry { key: String::from("biometric"), text_value: Some(String::from("scan")) },
    ]);
    let witness = generate_harm_witness(
        HarmType::BiometricExploitation,
        &violating,
        ProfileId(String::from("Virgo-Metal-Rat")),
    );
    assert!(matches!(witness.detected_harm, HarmType::BiometricExploitation));
    assert_eq!(witness.violating_event_id, "e-1");
    assert_eq!(witness.witness_profile.0, "Virgo-Metal-Rat");
    assert_eq!(witness.evidence, "Phase: Slow, payload keys: [biometric]");
}

#[test]
fn witness_evidence_without_object_payload() {
    let violating = payload_event("[1,2]");
    let witness =
        generate_harm_witness(HarmType::AENGAViolation, &violating, ProfileId(String::from("V-M-R")));
    assert_eq!(witness.evidence, "Phase: Slow, payload keys: none");
}

#[test]
fn witness_event_must_satisfy_both_laws() {
    let violating = payload_event(r#"{"biometric":"scan"}"#);
    let witness = generate_harm_witness(
        HarmType::BiometricExploitation,
        &violating,
        ProfileId(String::from("Virgo-Metal-Rat")),
    );
    let payload = Payload { text: String::from(r#"{"law3_witness":true}"#), entries: None };
    let event = build_witness_event(&witness, payload, Some(String::from("e-1")));
    assert_eq!(event.phase, OntoPhase::Slow);
    assert_eq!(event.social_proximity, 100);
    assert_eq!(event.profile_id.0, "Virgo-Metal-Rat");
    assert!(validate_witness_event(&event).is_ok());

    // Without a causal link the witness event fails tracing, as any other
    // Slow-phase event would.
    let payload = Payload { text: String::from(r#"{"law3_witness":true}"#), entries: None };
    let unlinked = build_witness_event(&witness, payload, None);
    assert!(matches!(
        validate_witness_event(&unlinked),
        Err(WitnessRejected::Tracing(TracingError::MissingCausalHash))
    ));

    // An unattributable witness is rejected by Law I.
    let anonymous = generate_harm_witness(
        HarmType::BiometricExploitation,
        &violating,
        ProfileId(String::from("anonymous")),
    );
    let payload = Payload { text: String::from(r#"{"law3_witness":true}"#), entries: None };
    let event = build_witness_event(&anonymous, payload, Some(String::from("e-1")));
    assert!(matches!(
        validate_witness_event(&event),
        Err(WitnessRejected::Attribution(AttributionError::UnattributedAction))
    ));
}
