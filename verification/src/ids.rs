//! Fresh identifiers for catalog records.

use vstd::prelude::*;

verus! {

/// Relies on `uuid::Uuid::new_v4` and its `Display` impl: a random v4 UUID
/// rendered in the hyphenated form, which is exactly 36 characters. The
/// value itself is random, so nothing further is assumed of it.
#[verifier::external_body]
pub(crate) fn fresh_record_id() -> (r: String)
    ensures
        r@.len() == 36,
{
    uuid::Uuid::new_v4().to_string()
}

} // verus!
