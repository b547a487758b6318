use vstd::prelude::*;

verus! {

/// A fresh buffer id: `uuid::Uuid::new_v4()` written out with its `Display` impl, which
/// the crate's source renders in the hyphenated form of 36 ASCII characters. The id is
/// random, so only its length is claimed, not its content.
#[verifier::external_body]
pub(crate) fn new_uuid_string() -> (r: String)
    ensures
        r@.len() == 36,
{
    uuid::Uuid::new_v4().to_string()
}

} // verus!
