//! Server-assigned opaque identifiers: resource ids and permission-ticket
//! ids are fresh UUID-class values, generated per request, never derived
//! from caller input.

use vstd::prelude::*;

verus! {

/// Relies on uuid's `Uuid::new_v4` and its hyphenated `Display` form: a
/// fresh random version-4 UUID rendered as 36 characters, each a lowercase
/// hexadecimal digit or a hyphen. The identifier is random, so nothing is
/// assumed of which value comes back beyond that rendered shape.
#[verifier::external_body]
pub(crate) fn fresh_id() -> (r: String)
    ensures
        r@.len() == 36,
        forall|i: int|
            0 <= i < 36 ==> (('0' <= #[trigger] r@[i] && r@[i] <= '9') || ('a' <= r@[i] && r@[i]
                <= 'f') || r@[i] == '-'),
{
    uuid::Uuid::new_v4().to_string()
}

} // verus!
