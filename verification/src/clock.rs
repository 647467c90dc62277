//! The clock of the service.

use vstd::prelude::*;
use crate::models::Timestamp;

verus! {

/// `chrono::Utc::now`, in microseconds since the Unix epoch. Nothing is
/// known of the moment it returns.
#[verifier::external_body]
pub(crate) fn current_time() -> (now: Timestamp) {
    Timestamp { micros: chrono::Utc::now().timestamp_micros() }
}

} // verus!
