//! The node's clock: the moment a tick stamps its snapshots and its
//! progress line with.

use vstd::prelude::*;

verus! {

/// Relies on chrono's `Utc::now` and `DateTime::to_rfc3339`: reads the
/// system clock and formats it as an RFC 3339 date-and-time string. The
/// result depends on the moment of the call, so nothing is promised of it;
/// every tick passes whatever came back along unchanged.
#[verifier::external_body]
pub(crate) fn current_timestamp() -> String {
    chrono::Utc::now().to_rfc3339()
}

} // verus!
