use vstd::prelude::*;

verus! {

/// Calls `chrono::Utc::now` and reads the instant with `DateTime::timestamp`, as
/// whole seconds since the start of 1970. Nothing is claimed of the number: it
/// is whatever the machine's clock says. The outside function panics where the
/// clock stands before 1970.
#[verifier::external_body]
pub(crate) fn utc_now() -> i64 {
    chrono::Utc::now().timestamp()
}

} // verus!
