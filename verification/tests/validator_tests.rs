use ontocms::ledger::ProfileId;
use ontocms::license::{detect_license, LicenseRegistry};
use ontocms::validator::{OntoValidator, ValidationError};

fn validator() -> OntoValidator {
    OntoValidator::new(
        LicenseRegistry::new(),
        vec![
            ProfileId(String::from("Aries-Wood-Rabbit")),
            ProfileId(String::from("Leo-Fire-Horse")),
        ],
    )
}

fn compliant_file() -> String {
    String::from(
        "// SPDX-License-Identifier: GPL-3.0-only\n// ONTO-PROFILE: Aries-Wood-Rabbit\n// ONTO-PHASE: Slow\nfn main() {}\n",
    )
}

#[test]
fn license_registry_flags() {
    let reg = LicenseRegistry::new();
    assert!(reg.is_compatible_with_sgcl("GPL-3.0-only"));
    assert!(reg.is_compatible_with_sgcl("MIT"));
    assert!(!reg.is_compatible_with_sgcl("BSL-1.1"));
    assert!(!reg.is_compatible_with_sgcl("SSPL"));
    assert!(!reg.is_compatible_with_sgcl("WTFPL"));
    assert!(reg.is_compatible_with_sgcl("SGRL-α"));
    assert!(!reg.is_compatible_with_sgcl("SGRL-alpha"));
    assert!(reg.requires_cla("MIT"));
    assert!(reg.requires_cla("Apache-2.0"));
    assert!(!reg.requires_cla("SGRL-α"));
    assert!(!reg.requires_cla("Unknown-1.0"));
}

#[test]
fn register_replaces_existing_entry() {
    let mut reg = LicenseRegistry::new();
    reg.register("MIT", false, false);
    assert!(!reg.is_compatible_with_sgcl("MIT"));
    assert!(!reg.requires_cla("MIT"));
}

#[test]
fn detect_license_reads_spdx_header() {
    assert_eq!(
        detect_license("// SPDX-License-Identifier: GPL-3.0-only\nfn main() {}\n"),
        "GPL-3.0-only"
    );
    assert_eq!(detect_license("/* SPDX-License-Identifier:   MIT   */"), "MIT   */");
    assert_eq!(detect_license("fn main() {}\n"), "NOASSERTION");
    assert_eq!(
        detect_license("a\n// SPDX-License-Identifier: Apache-2.0\r\nb\n"),
        "Apache-2.0"
    );
}

#[test]
fn validate_accepts_compliant_file() {
    assert!(validator().validate_file(&compliant_file()).is_ok());
}

#[test]
fn validate_rejects_energy_terms() {
    let text = compliant_file() + "// energy: high\n";
    assert!(matches!(
        validator().validate_file(&text),
        Err(ValidationError::EnergyValueDetected)
    ));
}

#[test]
fn validate_rejects_incompatible_license() {
    let text = compliant_file().replace("GPL-3.0-only", "SSPL");
    match validator().validate_file(&text) {
        Err(ValidationError::LicenseIncompatible(l)) => assert_eq!(l, "SSPL"),
        other => panic!("expected license rejection, got {:?}", other),
    }
    let text = compliant_file().replace("// SPDX-License-Identifier: GPL-3.0-only\n", "");
    match validator().validate_file(&text) {
        Err(ValidationError::LicenseIncompatible(l)) => assert_eq!(l, "NOASSERTION"),
        other => panic!("expected license rejection, got {:?}", other),
    }
}

#[test]
fn validate_rejects_unknown_profile() {
    let text = compliant_file().replace("Aries-Wood-Rabbit", "Pisces-Water-Snake");
    match validator().validate_file(&text) {
        Err(ValidationError::ProfileNotInRegistry(p)) => assert_eq!(p.0, "Pisces-Water-Snake"),
        other => panic!("expected profile rejection, got {:?}", other),
    }
}

#[test]
fn validate_rejects_missing_profile_annotation() {
    let text = compliant_file().replace("// ONTO-PROFILE: Aries-Wood-Rabbit\n", "");
    match validator().validate_file(&text) {
        Err(ValidationError::ProfileNotInRegistry(p)) => assert_eq!(p.0, "unattributed"),
        other => panic!("expected profile rejection, got {:?}", other),
    }
}

#[test]
fn validate_rejects_missing_phase_annotation() {
    let text = compliant_file().replace("// ONTO-PHASE: Slow\n", "");
    assert!(matches!(
        validator().validate_file(&text),
        Err(ValidationError::PhaseAnnotationMissing)
    ));
}

#[test]
fn validate_rejects_control_markers() {
    let text = compliant_file() + "// remote_control hook\n";
    assert!(matches!(validator().validate_file(&text), Err(ValidationError::AENGAViolation)));
    let text = compliant_file() + "// override_ethics()\n";
    assert!(matches!(validator().validate_file(&text), Err(ValidationError::AENGAViolation)));
}
