//! The time of day, for employees that are submitted without a time of
//! creation.

use vstd::prelude::*;

verus! {

/// The local wall-clock time, from `chrono::Local::now().naive_local()`.
///
/// Nothing is claimed about the value: it depends on the machine's clock and
/// time zone, and two calls may differ. chrono panics if the clock reads a
/// moment before 1970.
#[verifier::external_body]
pub(crate) fn current_time() -> (now: chrono::NaiveDateTime) {
    chrono::Local::now().naive_local()
}

} // verus!
