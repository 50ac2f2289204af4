//! The time of day, for the control log.

use vstd::prelude::*;

verus! {

/// Calls `chrono::Local::now` and formats the time as
/// `[%Y-%m-%d-%H-%M-%S]`. Nothing is claimed of the text: it changes from
/// one call to the next.
#[verifier::external_body]
pub(crate) fn current_timestamp() -> String {
    chrono::Local::now().format("[%Y-%m-%d-%H-%M-%S]").to_string()
}

} // verus!
