use vstd::prelude::*;

verus! {

/// `text` without the white space at its start and at its end, as
/// `str::trim` gives it.
pub uninterp spec fn trimmed(text: Seq<char>) -> Seq<char>;

/// Whether two string slices spell the same characters.
pub(crate) fn str_eq(a: &str, b: &str) -> (same: bool)
    ensures
        same == (a@ == b@),
{
    a.to_owned() == b.to_owned()
}

/// Calls `str::trim`, which returns the slice with leading and trailing
/// white space removed. The contract gives that result its name, and says
/// that a slice of `text` is no longer than `text`.
#[verifier::external_body]
pub(crate) fn trim(text: &str) -> (inner: &str)
    ensures
        inner@ == trimmed(text@),
        inner@.len() <= text@.len(),
{
    text.trim()
}

/// Whether `text` is empty or white space only.
pub open spec fn is_blank(text: Seq<char>) -> bool {
    text.len() == 0 || trimmed(text).len() == 0
}

/// Whether `text` is empty or white space only.
pub fn blank(text: &str) -> (b: bool)
    ensures
        b == is_blank(text@),
{
    trim(text).unicode_len() == 0
}

} // verus!
