//! Fresh event ids and wall-clock timestamps.
//!
//! Both values depend on the clock, so nothing is assumed of them beyond
//! their shape; every consumer of an id or a timestamp is verified for every
//! possible value.

use vstd::prelude::*;

verus! {

/// Relies on `uuid::Uuid::new_v7`, over a timestamp built with
/// `uuid::Timestamp::from_unix` from the system clock (a clock before the
/// epoch yields the epoch, so the call cannot panic): a fresh time-ordered
/// id, rendered in the 36-character hyphenated form.
#[verifier::external_body]
pub(crate) fn fresh_event_id() -> (r: String)
    ensures
        r@.len() == 36,
{
    let since_epoch = std::time::SystemTime::now().duration_since(
        std::time::UNIX_EPOCH,
    ).unwrap_or(std::time::Duration::ZERO);
    let ts = uuid::Timestamp::from_unix(
        uuid::NoContext,
        since_epoch.as_secs(),
        since_epoch.subsec_nanos(),
    );
    uuid::Uuid::new_v7(ts).to_string()
}

/// Relies on `std::time::SystemTime::now`: milliseconds since the Unix
/// epoch, or 0 when the clock reads earlier than the epoch. Nothing is
/// assumed of the value.
#[verifier::external_body]
pub(crate) fn current_millis() -> u64 {
    std::time::SystemTime::now().duration_since(std::time::UNIX_EPOCH).map(
        |d| d.as_millis() as u64,
    ).unwrap_or(0)
}

} // verus!
