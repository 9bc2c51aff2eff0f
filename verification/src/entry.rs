//! Reading what the user typed: the two calls into the standard library that the menu rests on.
//! Their contracts are believed, not proved.

use vstd::prelude::*;

verus! {

/// What is left of a text once the white space at both of its ends is removed.
pub uninterp spec fn trimmed(text: Seq<char>) -> Seq<char>;

/// The number that a text is the decimal numeral of: one or more digits `0` to `9`, with or
/// without a `+` before them. `None` where the text is not such a numeral.
pub uninterp spec fn decimal_value(text: Seq<char>) -> Option<nat>;

/// Calls `str::trim`. Believed of it: the slice that comes back depends on the characters of
/// `text` alone; it is what `trimmed` names.
#[verifier::external_body]
pub(crate) fn trim_text(text: &str) -> (r: &str)
    ensures
        r@ == trimmed(text@),
{
    text.trim()
}

/// Calls `str::parse` for `usize`. Believed of it: a number comes back exactly where `text` is
/// a decimal numeral whose value fits in a `usize`, and it is that value.
#[verifier::external_body]
pub(crate) fn parse_number(text: &str) -> (r: Option<usize>)
    ensures
        match r {
            Some(n) => decimal_value(text@) == Some(n as nat),
            None => decimal_value(text@).is_none() || decimal_value(text@).unwrap() > usize::MAX,
        },
{
    text.parse::<usize>().ok()
}

} // verus!
