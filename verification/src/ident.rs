//! Identifiers for tabs, bookmarks and downloads.

use vstd::prelude::*;

verus! {

/// A new identifier: a random version-4 UUID from `uuid::Uuid::new_v4()`,
/// written out by its `Display`.
///
/// Nothing is claimed of the text: it comes from the operating system's
/// random numbers and differs from call to call. `new_v4` panics when the
/// system cannot supply random bytes.
#[verifier::external_body]
pub(crate) fn fresh_id() -> String {
    uuid::Uuid::new_v4().to_string()
}

} // verus!
