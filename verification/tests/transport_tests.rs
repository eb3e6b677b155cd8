use ontocms::batch::hash_event_blobs;
use ontocms::darwin::{export_to_darwin_core, DarwinCoreError};
use ontocms::did::{generate_did_document, validate_did_usage, TransportError};
use ontocms::ledger::{OntoEvent, OntoPhase, Payload, PayloadEntry, ProfileId};
use ontocms::meta::{publish_to_yandex_meta, YandexMetaError};
use ontocms::scan::scan_violations;

fn observation_event() -> OntoEvent {
    OntoEvent {
        id: String::from("e-obs-1"),
        profile_id: ProfileId(String::from("Aries-Wood-Rabbit")),
        phase: OntoPhase::Slow,
        payload: Payload {
            text: String::from(
                r#"{"scientific_name":"Lynx lynx","locality":"Taiga","country":"FI"}"#,
            ),
            entries: Some(vec![
                PayloadEntry {
                    key: String::from("scientific_name"),
                    text_value: Some(String::from("Lynx lynx")),
                },
                PayloadEntry {
                    key: String::from("locality"),
                    text_value: Some(String::from("Taiga")),
                },
                PayloadEntry {
                    key: String::from("country"),
                    text_value: Some(String::from("FI")),
                },
            ]),
        },
        social_proximity: 80,
        causal_hash: Some(String::from("prior")),
        timestamp: 0,
    }
}

#[test]
fn export_builds_occurrence_record() {
    let record = export_to_darwin_core(&observation_event()).expect("exportable");
    assert_eq!(record.occurrence_id, "e-obs-1");
    assert_eq!(record.event_date, "1970-01-01T00:00:00Z");
    assert_eq!(record.scientific_name.as_deref(), Some("Lynx lynx"));
    assert_eq!(record.locality.as_deref(), Some("Taiga"));
    assert_eq!(record.country.as_deref(), Some("FI"));
    assert_eq!(record.recorded_by, "Aries-Wood-Rabbit");
    assert_eq!(record.basis_of_record, "MachineObservation");
    assert_eq!(record.ontocms_phase, "Slow");
}

#[test]
fn export_renders_later_timestamps() {
    let mut event = observation_event();
    event.timestamp = 1431648000 * 1000;
    let record = export_to_darwin_core(&event).expect("exportable");
    assert_eq!(record.event_date, "2015-05-15T00:00:00Z");
}

#[test]
fn export_refuses_unrepresentable_timestamp() {
    let mut event = observation_event();
    event.timestamp = u64::MAX;
    assert!(matches!(export_to_darwin_core(&event), Err(DarwinCoreError::InvalidTimestamp)));
}

#[test]
fn export_refuses_biometric_payload() {
    let mut event = observation_event();
    event.payload.text = String::from(r#"{"scientific_name":"x","Biometric":"iris"}"#);
    assert!(matches!(
        export_to_darwin_core(&event),
        Err(DarwinCoreError::BiometricDataDetected)
    ));
}

#[test]
fn export_refuses_non_observation() {
    let mut event = observation_event();
    event.payload = Payload {
        text: String::from(r#"{"note":"hello"}"#),
        entries: Some(vec![PayloadEntry {
            key: String::from("note"),
            text_value: Some(String::from("hello")),
        }]),
    };
    assert!(matches!(export_to_darwin_core(&event), Err(DarwinCoreError::NonPublicEvent)));
}

#[test]
fn did_document_is_derived_from_key() {
    let doc = generate_did_document(
        "Aries-Wood-Rabbit",
        "-----BEGIN PUBLIC KEY-----\nMFkw\n-----END PUBLIC KEY-----\n",
        "https://hub.example/onto",
    );
    assert_eq!(doc.context, "https://www.w3.org/ns/did/v1");
    assert!(doc.id.starts_with("did:key:"));
    assert_eq!(doc.id.len(), "did:key:".len() + 64);
    assert_eq!(doc.verification_method.len(), 1);
    let vm = &doc.verification_method[0];
    assert_eq!(vm.id, format!("{}#key-1", doc.id));
    assert_eq!(vm.method_type, "JsonWebKey2020");
    assert_eq!(vm.controller, doc.id);
    assert_eq!(vm.key_data.len(), 1);
    assert_eq!(vm.key_data[0].0, "publicKeyPem");
    assert!(vm.key_data[0].1.starts_with("-----BEGIN PUBLIC KEY-----"));
    assert_eq!(doc.authentication, vec![format!("{}#key-1", doc.id)]);
    assert_eq!(doc.service.len(), 1);
    assert_eq!(doc.service[0].id, format!("{}#ontoCMS", doc.id));
    assert_eq!(doc.service[0].service_type, "OntoCMS/PublicHub");
    assert_eq!(doc.service[0].service_endpoint, "https://hub.example/onto");

    let again = generate_did_document("Aries-Wood-Rabbit",
        "-----BEGIN PUBLIC KEY-----\nMFkw\n-----END PUBLIC KEY-----\n", "https://hub.example/onto");
    assert_eq!(doc.id, again.id);
    let other = generate_did_document("Aries-Wood-Rabbit", "another key", "https://hub.example/onto");
    assert_ne!(doc.id, other.id);
}

#[test]
fn did_usage_forbids_control_services() {
    assert!(matches!(
        validate_did_usage("OntoCMS/RemoteControl"),
        Err(TransportError::AENGAViolation)
    ));
    assert!(matches!(
        validate_did_usage("Corporate/Governance"),
        Err(TransportError::AENGAViolation)
    ));
    assert!(validate_did_usage("OntoCMS/PublicHub").is_ok());
}

#[test]
fn batch_hashing_is_deterministic_per_blob() {
    let blobs = vec![b"alpha".to_vec(), b"beta".to_vec(), b"alpha".to_vec()];
    let hashes = hash_event_blobs(&blobs);
    assert_eq!(hashes.len(), 3);
    assert_eq!(hashes[0], hashes[2]);
    assert_ne!(hashes[0], hashes[1]);
    let again = hash_event_blobs(&blobs);
    assert_eq!(hashes, again);
}

#[test]
fn scan_reports_banned_terms_in_order() {
    let content = "let value_score = 3; // monetize later";
    assert_eq!(scan_violations(content), vec!["value_score", "monetize"]);
    assert_eq!(
        scan_violations("energy biometric_raw attractiveness"),
        vec!["energy", "attractiveness", "biometric_raw"]
    );
    assert!(scan_violations("fn main() {}").is_empty());
}

#[test]
fn metadata_hub_is_disabled() {
    let event = observation_event();
    assert!(matches!(
        publish_to_yandex_meta(&event, "test-api-key"),
        Err(YandexMetaError::DisabledByDefault)
    ));
}
