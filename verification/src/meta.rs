//! The strictly optional metadata-hub integration. This build does not
//! enable it: every publication attempt is refused.

use vstd::prelude::*;

use crate::ledger::OntoEvent;

verus! {

/// Why a metadata-hub publication fails.
#[derive(Clone, Copy, Debug, PartialEq, Eq, Structural)]
pub enum YandexMetaError {
    /// The integration is switched off, as it is by default.
    DisabledByDefault,
    /// The payload would leak identity or behavioral data.
    AENGAViolation,
}

/// Publication to the metadata hub; disabled in this build, so every
/// attempt is refused.
pub fn publish_to_yandex_meta(_event: &OntoEvent, _api_key: &str) -> (r: Result<
    String,
    YandexMetaError,
>)
    ensures
        r == Err::<String, YandexMetaError>(YandexMetaError::DisabledByDefault),
{
    Err(YandexMetaError::DisabledByDefault)
}

} // verus!
