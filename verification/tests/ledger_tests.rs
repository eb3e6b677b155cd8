use ontocms::ledger::{ActivityLedger, OntoEvent, OntoPhase, Payload, PayloadEntry, ProfileId};

fn plain_payload(text: &str) -> Payload {
    Payload { text: String::from(text), entries: None }
}

fn object_payload(text: &str, entries: Vec<(&str, Option<&str>)>) -> Payload {
    Payload {
        text: String::from(text),
        entries: Some(
            entries
                .into_iter()
                .map(|(k, v)| PayloadEntry {
                    key: String::from(k),
                    text_value: v.map(String::from),
                })
                .collect(),
        ),
    }
}

fn event(id: &str, profile: &str, phase: OntoPhase, proximity: u8) -> OntoEvent {
    OntoEvent {
        id: String::from(id),
        profile_id: ProfileId(String::from(profile)),
        phase,
        payload: plain_payload("{}"),
        social_proximity: proximity,
        causal_hash: None,
        timestamp: 1000,
    }
}

#[test]
fn append_then_get() {
    let mut ledger = ActivityLedger::new();
    ledger.append(event("e-1", "Aries-Wood-Rabbit", OntoPhase::Slow, 50));
    assert_eq!(ledger.len(), 1);
    let got = ledger.get("e-1").expect("event admitted");
    assert_eq!(got.id, "e-1");
    assert_eq!(got.profile_id.0, "Aries-Wood-Rabbit");
    assert_eq!(got.social_proximity, 50);
    assert!(ledger.get("e-2").is_none());
}

#[test]
fn append_is_idempotent() {
    let mut ledger = ActivityLedger::new();
    ledger.append(event("e-1", "Aries-Wood-Rabbit", OntoPhase::Slow, 50));
    ledger.append(event("e-1", "Aries-Wood-Rabbit", OntoPhase::Slow, 50));
    assert_eq!(ledger.len(), 1);
    let by_profile = ledger.events_by_profile(&ProfileId(String::from("Aries-Wood-Rabbit")));
    assert_eq!(by_profile.len(), 1);
}

#[test]
fn append_same_id_different_content_is_noop() {
    let mut ledger = ActivityLedger::new();
    ledger.append(event("e-1", "Aries-Wood-Rabbit", OntoPhase::Slow, 50));
    ledger.append(event("e-1", "Leo-Fire-Horse", OntoPhase::Fast, 10));
    assert_eq!(ledger.len(), 1);
    assert_eq!(ledger.get("e-1").unwrap().profile_id.0, "Aries-Wood-Rabbit");
}

#[test]
fn projections_preserve_admission_order() {
    let mut ledger = ActivityLedger::new();
    ledger.append(event("e-1", "Aries-Wood-Rabbit", OntoPhase::Slow, 50));
    ledger.append(event("e-2", "Leo-Fire-Horse", OntoPhase::Slow, 60));
    ledger.append(event("e-3", "Aries-Wood-Rabbit", OntoPhase::Fast, 70));
    let by_profile = ledger.events_by_profile(&ProfileId(String::from("Aries-Wood-Rabbit")));
    let ids: Vec<&str> = by_profile.iter().map(|e| e.id.as_str()).collect();
    assert_eq!(ids, vec!["e-1", "e-3"]);
    let by_phase = ledger.events_by_phase(&OntoPhase::Slow);
    let ids: Vec<&str> = by_phase.iter().map(|e| e.id.as_str()).collect();
    assert_eq!(ids, vec!["e-1", "e-2"]);
    assert!(ledger.events_by_phase(&OntoPhase::Heyday).is_empty());
}

#[test]
fn payload_lookup() {
    let p = object_payload(
        r#"{"scientific_name":"Lynx lynx","count":3}"#,
        vec![("scientific_name", Some("Lynx lynx")), ("count", None)],
    );
    assert!(p.has_key("scientific_name"));
    assert!(p.has_key("count"));
    assert!(!p.has_key("locality"));
    assert_eq!(p.get_str("scientific_name"), Some(String::from("Lynx lynx")));
    assert_eq!(p.get_str("count"), None);
    let plain = plain_payload("[1,2,3]");
    assert!(!plain.has_key("scientific_name"));
    assert_eq!(plain.get_str("scientific_name"), None);
}
