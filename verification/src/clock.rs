//! Server clock. Creation timestamps are assigned by the server at write
//! time; nothing in the core depends on the value read.

use vstd::prelude::*;

verus! {

/// Relies on chrono::Utc::now / DateTime::timestamp: the current time as unix
/// seconds. The value depends on the machine's clock, so nothing is promised
/// of it.
#[verifier::external_body]
pub fn now_timestamp() -> i64 {
    chrono::Utc::now().timestamp()
}

} // verus!
