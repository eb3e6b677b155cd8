//! The source-file validator: license compliance, identity attribution,
//! phase annotation, and the structural bans on energy metrics and
//! external-control markers.

use vstd::prelude::*;
use vstd::string::StringExecFns;

use crate::ledger::ProfileId;
use crate::license::{license_of, lic_find, LicenseRegistry, LicenseView};
use crate::text;

verus! {

/// Why a source file fails validation.
#[derive(Debug)]
pub enum ValidationError {
    /// The declared license, which is not compatible.
    LicenseIncompatible(String),
    /// The declared identity, which the registry does not hold.
    ProfileNotInRegistry(ProfileId),
    /// The text mentions an energy or value metric.
    EnergyValueDetected,
    /// The text declares no phase.
    PhaseAnnotationMissing,
    /// The text holds an external-control or ethics-override marker.
    AENGAViolation,
}

/// Mathematical model of a validation failure.
#[verifier::ext_equal]
pub enum ValidationIssue {
    LicenseIncompatible(Seq<char>),
    ProfileNotInRegistry(Seq<char>),
    EnergyValueDetected,
    PhaseAnnotationMissing,
    AENGAViolation,
}

impl View for ValidationError {
    type V = ValidationIssue;

    open spec fn view(&self) -> ValidationIssue {
        match self {
            ValidationError::LicenseIncompatible(l) => ValidationIssue::LicenseIncompatible(l@),
            ValidationError::ProfileNotInRegistry(p) => ValidationIssue::ProfileNotInRegistry(p@),
            ValidationError::EnergyValueDetected => ValidationIssue::EnergyValueDetected,
            ValidationError::PhaseAnnotationMissing => ValidationIssue::PhaseAnnotationMissing,
            ValidationError::AENGAViolation => ValidationIssue::AENGAViolation,
        }
    }
}

/// The outcome of a validation, at the level of views.
pub open spec fn outcome_view(r: Result<(), ValidationError>) -> Result<(), ValidationIssue> {
    match r {
        Ok(_) => Ok(()),
        Err(e) => Err(e@),
    }
}

/// The source text mentions an energy or value metric.
pub open spec fn energy_marker_in(c: Seq<char>) -> bool {
    text::contains_seq(c, "energy"@) || text::contains_seq(c, "value"@) || text::contains_seq(
        c,
        "attract"@,
    ) || text::contains_seq(c, "monetize"@) || text::contains_seq(c, "score"@)
}

/// The source text holds an external-control or ethics-override marker.
pub open spec fn aenga_marker_in(c: Seq<char>) -> bool {
    text::contains_seq(c, "remote_control"@) || text::contains_seq(c, "override_ethics"@)
}

/// The marker a source file declares its identity with.
pub open spec fn spec_profile_marker() -> Seq<char> {
    "ONTO-PROFILE:"@
}

/// The marker a source file declares its phase with.
pub open spec fn spec_phase_marker() -> Seq<char> {
    "ONTO-PHASE:"@
}

/// The identity a source text declares: the text after the first profile
/// marker, to the end of that line, trimmed; `None` when no marker occurs.
pub open spec fn declared_profile(c: Seq<char>) -> Option<Seq<char>> {
    if text::contains_seq(c, spec_profile_marker()) {
        let start = text::first_match(c, spec_profile_marker()) + spec_profile_marker().len();
        let stop = text::first_char_from(c, '\n', start);
        Some(text::trim_seq(c.subrange(start, stop)))
    } else {
        None
    }
}

/// The declared license is registered and compatible.
pub open spec fn license_compatible(licenses: Seq<LicenseView>, c: Seq<char>) -> bool {
    match lic_find(licenses, license_of(c)) {
        Some(e) => e.compatible_with_sgcl,
        None => false,
    }
}

/// What validation decides for a source text, checked in this fixed order:
/// energy metrics, license compliance, identity attribution (a missing
/// annotation counts as the unattributed identity), phase annotation, and
/// the external-control ban.
pub open spec fn validation_spec(
    licenses: Seq<LicenseView>,
    allowed: Seq<Seq<char>>,
    c: Seq<char>,
) -> Result<(), ValidationIssue> {
    if energy_marker_in(c) {
        Err(ValidationIssue::EnergyValueDetected)
    } else if !license_compatible(licenses, c) {
        Err(ValidationIssue::LicenseIncompatible(license_of(c)))
    } else {
        match declared_profile(c) {
            None => Err(ValidationIssue::ProfileNotInRegistry("unattributed"@)),
            Some(pid) => if !allowed.contains(pid) {
                Err(ValidationIssue::ProfileNotInRegistry(pid))
            } else if !text::contains_seq(c, spec_phase_marker()) {
                Err(ValidationIssue::PhaseAnnotationMissing)
            } else if aenga_marker_in(c) {
                Err(ValidationIssue::AENGAViolation)
            } else {
                Ok(())
            },
        }
    }
}

/// The views of a list of identities.
pub open spec fn profile_views(s: Seq<ProfileId>) -> Seq<Seq<char>> {
    s.map_values(|p: ProfileId| p@)
}

/// The validator: a license registry and the closed set of identities that
/// source files may attribute themselves to.
pub struct OntoValidator {
    license_registry: LicenseRegistry,
    allowed_profiles: Vec<ProfileId>,
}

impl OntoValidator {
    /// The licenses the validator knows.
    pub closed spec fn licenses(&self) -> Seq<LicenseView> {
        self.license_registry@
    }

    /// The identities the validator accepts.
    pub closed spec fn allowed(&self) -> Seq<Seq<char>> {
        profile_views(self.allowed_profiles@)
    }

    /// A validator over the given licenses and identities.
    pub fn new(license_registry: LicenseRegistry, profile_list: Vec<ProfileId>) -> (r: Self)
        ensures
            r.licenses() == license_registry@,
            r.allowed() == profile_views(profile_list@),
    {
        OntoValidator { license_registry, allowed_profiles: profile_list }
    }

    /// Rejects a text that mentions an energy or value metric.
    pub fn check_no_energy_values(&self, content: &str) -> (r: Result<(), ValidationError>)
        ensures
            outcome_view(r) == (if energy_marker_in(content@) {
                Err::<(), ValidationIssue>(ValidationIssue::EnergyValueDetected)
            } else {
                Ok::<(), ValidationIssue>(())
            }),
    {
        if text::str_contains(content, "energy") || text::str_contains(content, "value")
            || text::str_contains(content, "attract") || text::str_contains(content, "monetize")
            || text::str_contains(content, "score") {
            Err(ValidationError::EnergyValueDetected)
        } else {
            Ok(())
        }
    }

    /// Rejects a text whose declared license is not compatible.
    pub fn check_license_compliance(&self, content: &str) -> (r: Result<(), ValidationError>)
        ensures
            outcome_view(r) == (if license_compatible(self.licenses(), content@) {
                Ok::<(), ValidationIssue>(())
            } else {
                Err::<(), ValidationIssue>(
                    ValidationIssue::LicenseIncompatible(license_of(content@)),
                )
            }),
    {
        let license = crate::license::detect_license(content);
        if self.license_registry.is_compatible_with_sgcl(license.as_str()) {
            Ok(())
        } else {
            Err(ValidationError::LicenseIncompatible(license))
        }
    }

    /// Whether the validator accepts the identity.
    fn is_allowed(&self, id: &str) -> (r: bool)
        ensures
            r == self.allowed().contains(id@),
    {
        let mut i: usize = 0;
        while i < self.allowed_profiles.len()
            invariant
                0 <= i <= self.allowed().len(),
                self.allowed().len() == self.allowed_profiles@.len(),
                forall|k: int| 0 <= k < i ==> self.allowed()[k] != id@,
            decreases self.allowed().len() - i,
        {
            if text::str_eq(self.allowed_profiles[i].0.as_str(), id) {
                assert(self.allowed()[i as int] == id@);
                return true;
            }
            i += 1;
        }
        false
    }

    /// Rejects a text that declares no identity, or one outside the
    /// accepted set.
    pub fn check_profile_attribution(&self, content: &str) -> (r: Result<(), ValidationError>)
        ensures
            outcome_view(r) == (match declared_profile(content@) {
                None => Err::<(), ValidationIssue>(
                    ValidationIssue::ProfileNotInRegistry("unattributed"@),
                ),
                Some(pid) => if self.allowed().contains(pid) {
                    Ok::<(), ValidationIssue>(())
                } else {
                    Err::<(), ValidationIssue>(ValidationIssue::ProfileNotInRegistry(pid))
                },
            }),
    {
        match text::marker_line_suffix(content, "ONTO-PROFILE:") {
            Some(id) => {
                if self.is_allowed(id.as_str()) {
                    Ok(())
                } else {
                    Err(ValidationError::ProfileNotInRegistry(ProfileId(id)))
                }
            },
            None => Err(
                ValidationError::ProfileNotInRegistry(ProfileId(String::from_str("unattributed"))),
            ),
        }
    }

    /// Rejects a text that declares no phase.
    pub fn check_phase_annotation(&self, content: &str) -> (r: Result<(), ValidationError>)
        ensures
            outcome_view(r) == (if text::contains_seq(content@, spec_phase_marker()) {
                Ok::<(), ValidationIssue>(())
            } else {
                Err::<(), ValidationIssue>(ValidationIssue::PhaseAnnotationMissing)
            }),
    {
        if text::str_contains(content, "ONTO-PHASE:") {
            Ok(())
        } else {
            Err(ValidationError::PhaseAnnotationMissing)
        }
    }

    /// Rejects a text holding an external-control or ethics-override
    /// marker.
    pub fn check_aenga_compliance(&self, content: &str) -> (r: Result<(), ValidationError>)
        ensures
            outcome_view(r) == (if aenga_marker_in(content@) {
                Err::<(), ValidationIssue>(ValidationIssue::AENGAViolation)
            } else {
                Ok::<(), ValidationIssue>(())
            }),
    {
        if text::str_contains(content, "remote_control") || text::str_contains(
            content,
            "override_ethics",
        ) {
            Err(ValidationError::AENGAViolation)
        } else {
            Ok(())
        }
    }

    /// Validates a source text: all five checks, in their fixed order.
    pub fn validate_file(&self, content: &str) -> (r: Result<(), ValidationError>)
        ensures
            outcome_view(r) == validation_spec(self.licenses(), self.allowed(), content@),
    {
        match self.check_no_energy_values(content) {
            Err(e) => Err(e),
            Ok(_) => match self.check_license_compliance(content) {
                Err(e) => Err(e),
                Ok(_) => match self.check_profile_attribution(content) {
                    Err(e) => Err(e),
                    Ok(_) => match self.check_phase_annotation(content) {
                        Err(e) => Err(e),
                        Ok(_) => match self.check_aenga_compliance(content) {
                            Err(e) => Err(e),
                            Ok(_) => Ok(()),
                        },
                    },
                },
            },
        }
    }
}

} // verus!
