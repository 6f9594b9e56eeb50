//! The wall clock.

use vstd::prelude::*;

verus! {

/// `chrono::Utc::now`, written as its debug form writes it (date, `T`,
/// time, `Z`). Nothing is promised of the text: it is the time of the call.
#[verifier::external_body]
pub(crate) fn utc_timestamp() -> (r: String) {
    format!("{:?}", chrono::Utc::now())
}

/// `chrono::Utc::now` as whole seconds since the Unix epoch
/// (`DateTime::timestamp`). Nothing is promised of the number.
#[verifier::external_body]
pub(crate) fn utc_seconds() -> (r: i64) {
    chrono::Utc::now().timestamp()
}

} // verus!
