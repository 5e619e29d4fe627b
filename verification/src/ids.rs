//! Fresh random identifiers for stored files.

use vstd::prelude::*;

verus! {

/// The shape of a fresh identifier: 36 characters, each a lowercase
/// hexadecimal digit or a hyphen. In particular it never holds a `.` or
/// a path separator.
pub open spec fn spec_id_shape(id: Seq<char>) -> bool {
    &&& id.len() == 36
    &&& forall|i: int|
        0 <= i < id.len() ==> {
            let c = #[trigger] id[i] as u32;
            (48 <= c && c <= 57) || (97 <= c && c <= 102) || c == 45
        }
}

/// Relies on `uuid::Uuid::new_v4` and uuid's `Display` impl: a fresh
/// random version-4 UUID rendered in the hyphenated form — 36 characters
/// of lowercase hexadecimal digits separated by hyphens. Which identifier
/// comes back is random; nothing is assumed beyond that shape.
#[verifier::external_body]
pub(crate) fn fresh_id() -> (r: String)
    ensures
        spec_id_shape(r@),
{
    uuid::Uuid::new_v4().to_string()
}

} // verus!
