use vstd::prelude::*;
use unicode_normalization::UnicodeNormalization;

verus! {

/// What Unicode normalization form C makes of a sequence of characters; the
/// result depends on the characters alone.
pub uninterp spec fn nfc_of(s: Seq<char>) -> Seq<char>;

/// Returns a new string whose textual value is the same as this string, but
/// whose binary representation is in Unicode normalization form C.
///
/// Relies on `unicode_normalization::UnicodeNormalization::nfc`: canonical
/// decomposition followed by canonical composition, a function of the
/// characters alone; it yields nothing for an empty string, and the form is
/// documented to be idempotent — normalizing an already-normalized string
/// changes nothing.
#[verifier::external_body]
pub fn normalize(string: &str) -> (r: String)
    ensures
        r@ == nfc_of(string@),
        string@.len() == 0 ==> r@.len() == 0,
        nfc_of(r@) == r@,
{
    string.nfc().collect()
}

} // verus!
