use ontocms::registry::{
    BehavioralElement, InvariantRegistry, Onto144Profile, PerceptualModality, RawRecord,
    RegistryError,
};

fn profile(id: &str, hash: &str) -> Onto144Profile {
    Onto144Profile {
        id: String::from(id),
        perceptual_modality: PerceptualModality {
            zodiac_sign: String::from("Aries"),
            element: String::from("Fire"),
            modality: String::from("Cardinal"),
            traits: vec![String::from("direct")],
            cognitive_bias: String::from("action"),
        },
        behavioral_element: BehavioralElement {
            chinese_element: String::from("Wood"),
            chinese_animal: String::from("Rabbit"),
            yin_yang: String::from("Yin"),
            season: String::from("Spring"),
            traits: vec![String::from("patient")],
            decision_style: String::from("deliberate"),
        },
        invariant_hash: String::from(hash),
    }
}

fn good_hash() -> String {
    let mut h = String::from("sha3-256:");
    while h.len() < 71 {
        h.push('a');
    }
    h
}

fn record(id: &str) -> RawRecord {
    RawRecord {
        source_text: format!("id: {}\nperceptual: ok\nbehavioral: ok\n", id),
        profile: profile(id, &good_hash()),
    }
}

fn records(n: usize) -> Vec<RawRecord> {
    (0..n).map(|i| record(&format!("Sign{}-Elem{}-Animal{}", i, i, i))).collect()
}

#[test]
fn load_exactly_full_set_succeeds() {
    let mut registry = InvariantRegistry::new();
    assert!(registry.load_from_records(&records(144)).is_ok());
    assert_eq!(registry.len(), 144);
    assert_eq!(registry.all_ids().len(), 144);
}

#[test]
fn load_one_short_fails_incomplete() {
    let mut registry = InvariantRegistry::new();
    assert!(matches!(
        registry.load_from_records(&records(143)),
        Err(RegistryError::Incomplete)
    ));
    assert_eq!(registry.len(), 0);
}

#[test]
fn load_one_over_fails_incomplete() {
    let mut registry = InvariantRegistry::new();
    assert!(matches!(
        registry.load_from_records(&records(145)),
        Err(RegistryError::Incomplete)
    ));
    assert_eq!(registry.len(), 0);
}

#[test]
fn forbidden_field_fails_whole_load() {
    let mut recs = records(144);
    recs[3].source_text = String::from("id: x\nenergy: 12\n");
    let mut registry = InvariantRegistry::new();
    assert!(matches!(registry.load_from_records(&recs), Err(RegistryError::Corrupt)));
    assert_eq!(registry.len(), 0);
}

#[test]
fn forbidden_scoring_terms_are_each_detected() {
    for term in ["energy", "value", "score", "attract", "monetize"] {
        let text = format!("id: x\n{}: 1\n", term);
        assert!(InvariantRegistry::contains_forbidden_fields(&text), "{}", term);
    }
    assert!(!InvariantRegistry::contains_forbidden_fields("id: x\ncolor: blue\n"));
}

#[test]
fn malformed_hash_fails_whole_load() {
    let mut recs = records(144);
    recs[7].profile.invariant_hash = String::from("sha3-256:short");
    let mut registry = InvariantRegistry::new();
    assert!(matches!(registry.load_from_records(&recs), Err(RegistryError::HashMismatch)));
    assert_eq!(registry.len(), 0);

    let mut recs = records(144);
    let mut wrong_tag = String::from("sha2-256:");
    while wrong_tag.len() < 71 {
        wrong_tag.push('a');
    }
    recs[7].profile.invariant_hash = wrong_tag;
    let mut registry = InvariantRegistry::new();
    assert!(matches!(registry.load_from_records(&recs), Err(RegistryError::HashMismatch)));
}

#[test]
fn validate_hash_checks_tag_and_length() {
    assert!(InvariantRegistry::validate_hash(&profile("A-B-C", &good_hash())));
    assert!(!InvariantRegistry::validate_hash(&profile("A-B-C", "sha3-256:abc")));
    let mut too_long = good_hash();
    too_long.push('a');
    assert!(!InvariantRegistry::validate_hash(&profile("A-B-C", &too_long)));
}

#[test]
fn lookups_over_loaded_registry() {
    let mut recs = records(143);
    let mut special_hash = String::from("sha3-256:");
    while special_hash.len() < 71 {
        special_hash.push('b');
    }
    recs.push(RawRecord {
        source_text: String::from("id: Aries-Wood-Rabbit\n"),
        profile: profile("Aries-Wood-Rabbit", &special_hash),
    });
    let mut registry = InvariantRegistry::new();
    assert!(registry.load_from_records(&recs).is_ok());

    let found = registry.get_profile("Aries-Wood-Rabbit").expect("registered");
    assert_eq!(found.id, "Aries-Wood-Rabbit");
    assert!(registry.get_profile("Nobody-Nothing-Nowhere").is_none());

    assert_eq!(registry.verify_hash(&special_hash), Some("Aries-Wood-Rabbit"));
    assert!(registry.verify_hash("sha3-256:unknown").is_none());

    let ids = registry.all_ids();
    assert_eq!(ids.len(), 144);
    assert!(ids.iter().any(|i| i == "Aries-Wood-Rabbit"));
}

#[test]
fn duplicate_id_replaces_not_doubles() {
    let mut recs = records(144);
    let dup_id = "Sign0-Elem0-Animal0";
    recs.push(record(dup_id));
    // 145 raw records but only 144 distinct ids: the load still completes.
    let mut registry = InvariantRegistry::new();
    assert!(registry.load_from_records(&recs).is_ok());
    assert_eq!(registry.len(), 144);
}
