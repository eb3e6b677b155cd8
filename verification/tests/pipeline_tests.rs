use ontocms::attribution::enforce_attribution;
use ontocms::ledger::{ActivityLedger, OntoPhase, Payload, ProfileId};
use ontocms::mirror::LocalMirror;
use ontocms::phase::PhaseEngine;
use ontocms::tracing::enforce_tracing;

#[test]
fn decline_event_passes_both_laws_and_is_admitted() {
    let profile = ProfileId(String::from("Aries-Wood-Rabbit"));
    let mut engine = PhaseEngine::new(OntoPhase::Heyday, profile);
    engine.transition_to(OntoPhase::Decline).expect("deconstruction after synthesis");

    let mut event =
        engine.emit_event(Payload { text: String::from(r#"{"note":"ok"}"#), entries: None }, 70);
    event.causal_hash = Some(String::from("prior-event-id"));

    enforce_attribution(&event).expect("attributed");
    enforce_tracing(&event).expect("traced");

    let id = event.id.clone();
    let mut ledger = ActivityLedger::new();
    ledger.append(event);

    let in_decline = ledger.events_by_phase(&OntoPhase::Decline);
    assert_eq!(in_decline.len(), 1);
    assert_eq!(in_decline[0].id, id);
}

#[test]
fn rejected_event_is_never_admitted() {
    let profile = ProfileId(String::from("anonymous"));
    let engine = PhaseEngine::new(OntoPhase::Slow, profile);
    let event = engine.emit_event(Payload { text: String::from("{}"), entries: None }, 50);
    let mut ledger = ActivityLedger::new();
    if enforce_attribution(&event).is_ok() && enforce_tracing(&event).is_ok() {
        ledger.append(event);
    }
    assert_eq!(ledger.len(), 0);
}

#[test]
fn mirror_load_is_granted_once_per_identity() {
    let mut mirror = LocalMirror::new("/tmp/ontocms-test");
    let profile = ProfileId(String::from("Aries-Wood-Rabbit"));
    assert!(mirror.begin_profile_load(&profile));
    assert!(!mirror.begin_profile_load(&profile));
    assert!(!mirror.begin_profile_load(&profile));
    let other = ProfileId(String::from("Leo-Fire-Horse"));
    assert!(mirror.begin_profile_load(&other));
}

#[test]
fn mirror_paths_are_derived_from_identity_and_id() {
    let mirror = LocalMirror::new("/var/data");
    let profile = ProfileId(String::from("Aries-Wood-Rabbit"));
    assert_eq!(
        mirror.event_path(&profile, "e-1"),
        "/var/data/local_mirror/Aries-Wood-Rabbit/e-1.json"
    );
    assert_eq!(mirror.profile_dir(&profile), "/var/data/local_mirror/Aries-Wood-Rabbit");
}
