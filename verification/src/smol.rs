//! Small strings, as the `smol_str` crate provides them.

use smol_str::SmolStr;
use vstd::prelude::*;
use vstd::string::*;

verus! {

/// `smol_str::SmolStr`: a string that is cheap to copy.
#[verifier::external_type_specification]
#[verifier::external_body]
pub struct ExSmolStr(smol_str::SmolStr);

/// The text that a small string holds.
pub uninterp spec fn smol_text(s: SmolStr) -> Seq<char>;

/// `SmolStr::new`: the small string that holds the text.
#[verifier::external_body]
pub(crate) fn smol_new(text: &str) -> (r: SmolStr)
    ensures
        smol_text(r) == text@,
{
    SmolStr::new(text)
}

/// `SmolStr::as_str`: the text that the small string holds.
#[verifier::external_body]
pub(crate) fn smol_as_str(s: &SmolStr) -> (r: &str)
    ensures
        r@ == smol_text(*s),
{
    s.as_str()
}

} // verus!
