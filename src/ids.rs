//! Identifiers of stored records.

use vstd::prelude::*;

verus! {

/// Relies on `uuid::Uuid::new_v4` and its `Display`, which writes the
/// hyphenated form of 36 characters. The value is random.
#[verifier::external_body]
fn new_v4_text() -> (r: String)
    ensures
        r@.len() == 36,
{
    uuid::Uuid::new_v4().to_string()
}

/// A fresh random record id, in the hyphenated UUID form.
pub fn fresh_id() -> (r: String)
    ensures
        r@.len() == 36,
{
    new_v4_text()
}

} // verus!
