use ontocms::ledger::{OntoPhase, Payload, ProfileId};
use ontocms::phase::{PhaseEngine, PhaseError};

const PHASES: [OntoPhase; 4] =
    [OntoPhase::Fast, OntoPhase::Decline, OntoPhase::Slow, OntoPhase::Heyday];

fn allowed(from: OntoPhase, to: OntoPhase) -> bool {
    to != OntoPhase::Fast || from == OntoPhase::Decline || from == to
}

#[test]
fn transition_table_exhaustive() {
    for from in PHASES {
        for to in PHASES {
            let mut engine = PhaseEngine::new(from, ProfileId(String::from("Aries-Wood-Rabbit")));
            let r = engine.transition_to(to);
            if allowed(from, to) {
                assert!(r.is_ok(), "{:?} -> {:?} should be allowed", from, to);
                assert_eq!(*engine.current_phase(), to);
            } else {
                assert!(
                    matches!(r, Err(PhaseError::InvalidTransition)),
                    "{:?} -> {:?} should be refused",
                    from,
                    to
                );
                assert_eq!(*engine.current_phase(), from);
            }
        }
    }
}

#[test]
fn transition_concrete_cases() {
    let profile = || ProfileId(String::from("Aries-Wood-Rabbit"));
    let mut engine = PhaseEngine::new(OntoPhase::Fast, profile());
    assert!(engine.transition_to(OntoPhase::Fast).is_ok());
    let mut engine = PhaseEngine::new(OntoPhase::Slow, profile());
    assert!(engine.transition_to(OntoPhase::Fast).is_err());
    let mut engine = PhaseEngine::new(OntoPhase::Decline, profile());
    assert!(engine.transition_to(OntoPhase::Fast).is_ok());
    let mut engine = PhaseEngine::new(OntoPhase::Slow, profile());
    assert!(engine.transition_to(OntoPhase::Heyday).is_ok());
    let mut engine = PhaseEngine::new(OntoPhase::Fast, profile());
    assert!(engine.transition_to(OntoPhase::Slow).is_ok());
    let mut engine = PhaseEngine::new(OntoPhase::Heyday, profile());
    assert!(engine.transition_to(OntoPhase::Decline).is_ok());
}

#[test]
fn emit_stamps_phase_and_profile() {
    let engine = PhaseEngine::new(OntoPhase::Heyday, ProfileId(String::from("Leo-Fire-Horse")));
    let event = engine.emit_event(Payload { text: String::from("{}"), entries: None }, 42);
    assert_eq!(event.phase, OntoPhase::Heyday);
    assert_eq!(event.profile_id.0, "Leo-Fire-Horse");
    assert_eq!(event.social_proximity, 42);
    assert!(event.causal_hash.is_none());
    assert_eq!(event.id.len(), 36);
}

#[test]
fn emitted_ids_are_distinct() {
    let engine = PhaseEngine::new(OntoPhase::Slow, ProfileId(String::from("Leo-Fire-Horse")));
    let a = engine.emit_event(Payload { text: String::from("{}"), entries: None }, 10);
    let b = engine.emit_event(Payload { text: String::from("{}"), entries: None }, 10);
    assert_ne!(a.id, b.id);
}

#[test]
fn phase_names_round_trip() {
    for phase in PHASES {
        let name = phase.name();
        assert_eq!(OntoPhase::from_name(name), Some(phase));
    }
    assert_eq!(OntoPhase::from_name("Sideways"), None);
    assert_eq!(OntoPhase::from_name(""), None);
    assert_eq!(OntoPhase::Fast.name(), "Fast");
    assert_eq!(OntoPhase::Decline.name(), "Decline");
}
