//! Passive witnessing of energy-model injection. The core never uses an
//! energy model in its own work; it only records attempts to smuggle one in.

use vstd::prelude::*;

use crate::harm::HarmType;
use crate::ledger::OntoEvent;
use crate::text;

verus! {

/// What the energy adapter detects in a payload text: any energy-state
/// marker, by ASCII case-insensitive substring match.
pub open spec fn energy_injection_spec(text: Seq<char>) -> Option<HarmType> {
    if text::contains_ci(text, "energy"@) || text::contains_ci(text, "energy_state"@) {
        Some(HarmType::EnergyValueInjection)
    } else {
        None
    }
}

/// Detects an attempt to inject energy metrics into an event's payload.
pub fn detect_energy_injection(event: &OntoEvent) -> (r: Option<HarmType>)
    ensures
        r == energy_injection_spec(event@.payload.text),
{
    let t = event.payload.text.as_str();
    if text::str_contains_ci(t, "energy") || text::str_contains_ci(t, "energy_state") {
        Some(HarmType::EnergyValueInjection)
    } else {
        None
    }
}

} // verus!
