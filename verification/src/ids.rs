//! Trusted boundary around the process-identifier generator.

use vstd::prelude::*;

verus! {

/// Relies on uuid::Uuid::new_v4 and its Display impl: a freshly drawn
/// version-4 UUID, rendered in the hyphenated form, which is exactly 36
/// characters.  The value is random, so nothing is claimed of its content,
/// and in particular no freshness: the registry treats a colliding
/// identifier as a replacement, exactly as a map insertion would.
#[verifier::external_body]
pub(crate) fn fresh_id() -> (r: String)
    ensures
        r@.len() == 36,
{
    uuid::Uuid::new_v4().to_string()
}

} // verus!
