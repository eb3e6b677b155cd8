//! Export of public biodiversity observations: an event becomes an
//! occurrence record, but only when its payload carries no biometric
//! marker and names an observation.

use vstd::prelude::*;
use vstd::string::StringExecFns;

use crate::ledger::{
    payload_has_key, payload_str_value, str_opt_view, EventView, OntoEvent,
};
use crate::text;

verus! {

/// The `%Y-%m-%dT%H:%M:%SZ` rendering of a Unix timestamp in seconds, when
/// the timestamp is representable; a function of the seconds alone.
pub uninterp spec fn iso_utc_of(secs: i64) -> Option<Seq<char>>;

/// Relies on `chrono::DateTime::<Utc>::from_timestamp` and its strftime
/// formatting: the rendering depends on the seconds alone, and only a
/// timestamp outside chrono's representable range (circa 262,000 years
/// from the common era) yields `None`.
#[verifier::external_body]
fn format_timestamp(secs: i64) -> (r: Option<String>)
    ensures
        match r {
            Some(s) => iso_utc_of(secs) == Some(s@),
            None => iso_utc_of(secs) is None,
        },
        0 <= secs <= 1_000_000_000_000 ==> r is Some,
{
    chrono::DateTime::<chrono::Utc>::from_timestamp(secs, 0).map(
        |dt| dt.format("%Y-%m-%dT%H:%M:%SZ").to_string(),
    )
}

/// An occurrence record of the biodiversity exchange format.
#[derive(Debug)]
pub struct DarwinCoreRecord {
    /// The event id.
    pub occurrence_id: String,
    /// ISO 8601 timestamp.
    pub event_date: String,
    pub scientific_name: Option<String>,
    pub locality: Option<String>,
    pub country: Option<String>,
    /// The emitting identity.
    pub recorded_by: String,
    pub basis_of_record: String,
    /// The phase the event was emitted in.
    pub ontocms_phase: String,
}

/// Why an event cannot be exported.
#[derive(Clone, Copy, Debug, PartialEq, Eq, Structural)]
pub enum DarwinCoreError {
    /// The payload carries a biometric marker, which must never leave the
    /// node.
    BiometricDataDetected,
    /// The event is not a public biodiversity observation.
    NonPublicEvent,
    /// The event's timestamp cannot be rendered.
    InvalidTimestamp,
}

/// The payload names a public biodiversity observation.
pub open spec fn is_public_biodiversity(e: EventView) -> bool {
    payload_has_key(e.payload, "scientific_name"@) || payload_has_key(
        e.payload,
        "species_observation"@,
    )
}

/// The event's timestamp in whole seconds.
pub open spec fn event_secs(e: EventView) -> i64 {
    (e.timestamp / 1000) as i64
}

/// Why the export of an event fails, in check order: biometric markers
/// first, then the public-observation requirement, then the timestamp;
/// `None` when the event exports cleanly.
pub open spec fn export_error(e: EventView) -> Option<DarwinCoreError> {
    if text::contains_ci(e.payload.text, "biometric"@) {
        Some(DarwinCoreError::BiometricDataDetected)
    } else if !is_public_biodiversity(e) {
        Some(DarwinCoreError::NonPublicEvent)
    } else if iso_utc_of(event_secs(e)) is None {
        Some(DarwinCoreError::InvalidTimestamp)
    } else {
        None
    }
}

/// Turns an event into an occurrence record, refusing events that carry
/// biometric markers or are not public observations.
pub fn export_to_darwin_core(event: &OntoEvent) -> (r: Result<DarwinCoreRecord, DarwinCoreError>)
    ensures
        match r {
            Ok(rec) => export_error(event@) is None && rec.occurrence_id@ == event@.id
                && Some(rec.event_date@) == iso_utc_of(event_secs(event@)) && str_opt_view(
                rec.scientific_name,
            ) == payload_str_value(event@.payload, "scientific_name"@) && str_opt_view(rec.locality)
                == payload_str_value(event@.payload, "locality"@) && str_opt_view(rec.country)
                == payload_str_value(event@.payload, "country"@) && rec.recorded_by@
                == event@.profile && rec.basis_of_record@ == "MachineObservation"@
                && rec.ontocms_phase@ == event@.phase.spec_name(),
            Err(e) => Some(e) == export_error(event@),
        },
{
    if text::str_contains_ci(event.payload.text.as_str(), "biometric") {
        return Err(DarwinCoreError::BiometricDataDetected);
    }
    if !is_public_biodiversity_event(event) {
        return Err(DarwinCoreError::NonPublicEvent);
    }
    let secs = (event.timestamp / 1000) as i64;
    let event_date = match format_timestamp(secs) {
        Some(s) => s,
        None => {
            return Err(DarwinCoreError::InvalidTimestamp);
        },
    };
    Ok(
        DarwinCoreRecord {
            occurrence_id: event.id.clone(),
            event_date,
            scientific_name: extract_scientific_name(event),
            locality: extract_locality(event),
            country: extract_country(event),
            recorded_by: event.profile_id.0.clone(),
            basis_of_record: String::from_str("MachineObservation"),
            ontocms_phase: String::from_str(event.phase.name()),
        },
    )
}

/// Whether the event's payload names a public biodiversity observation.
pub fn is_public_biodiversity_event(event: &OntoEvent) -> (r: bool)
    ensures
        r == is_public_biodiversity(event@),
{
    event.payload.has_key("scientific_name") || event.payload.has_key("species_observation")
}

/// The scientific name the payload holds, if any.
pub fn extract_scientific_name(event: &OntoEvent) -> (r: Option<String>)
    ensures
        str_opt_view(r) == payload_str_value(event@.payload, "scientific_name"@),
{
    event.payload.get_str("scientific_name")
}

/// The locality the payload holds, if any.
pub fn extract_locality(event: &OntoEvent) -> (r: Option<String>)
    ensures
        str_opt_view(r) == payload_str_value(event@.payload, "locality"@),
{
    event.payload.get_str("locality")
}

/// The country the payload holds, if any.
pub fn extract_country(event: &OntoEvent) -> (r: Option<String>)
    ensures
        str_opt_view(r) == payload_str_value(event@.payload, "country"@),
{
    event.payload.get_str("country")
}

} // verus!
