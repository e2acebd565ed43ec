//! Identifiers for new records.

use vstd::prelude::*;

verus! {

/// Whether `c` is a digit or one of the letters `a` to `f`.
pub open spec fn is_hex_digit(c: char) -> bool {
    ('0' <= c && c <= '9') || ('a' <= c && c <= 'f')
}

/// Whether `s` has the shape of a UUID in its usual text form: 36 characters,
/// hyphens after the 8th, 12th, 16th and 20th hexadecimal digit.
pub open spec fn is_uuid_text(s: Seq<char>) -> bool {
    &&& s.len() == 36
    &&& forall|i: int|
        0 <= i < 36 ==> if i == 8 || i == 13 || i == 18 || i == 23 {
            s[i] == '-'
        } else {
            is_hex_digit(#[trigger] s[i])
        }
}

/// A random identifier: `uuid::Uuid::new_v4`, written out by the `Display`
/// of `uuid::Uuid`. Believed of it: the text is the hyphenated lower-case
/// form, whatever the random bits were. Nothing is claimed of which
/// identifier comes back, nor that two calls differ. The call panics only
/// where the operating system hands out no random bytes.
#[verifier::external_body]
pub(crate) fn fresh_id() -> (id: String)
    ensures
        is_uuid_text(id@),
{
    uuid::Uuid::new_v4().to_string()
}

} // verus!
