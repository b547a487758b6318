use vstd::prelude::*;
use zeroize::Zeroize;

verus! {

/// Wipes a secret with `<String as zeroize::Zeroize>::zeroize`. The crate's source
/// overwrites every byte of the string (and its spare capacity) with zeros and then
/// clears it; what is claimed here is only the visible part: the string ends up empty.
#[verifier::external_body]
pub(crate) fn wipe_string(s: &mut String)
    ensures
        final(s)@ == Seq::<char>::empty(),
{
    s.zeroize();
}

} // verus!
