//! Upper-casing of names.

use vstd::prelude::*;
use crate::lexical::is_lower;

verus! {

/// The upper-case form that `str::to_uppercase` gives a text. For ASCII text
/// it is spelled out by `upper_text`; beyond ASCII it follows Unicode's
/// tables and is only named.
pub uninterp spec fn uppercase_of(s: Seq<char>) -> Seq<char>;

pub open spec fn is_ascii_char(c: char) -> bool {
    (c as u32) < 128
}

/// Every character of `s` is ASCII.
pub open spec fn is_ascii_text(s: Seq<char>) -> bool {
    forall|i: int| 0 <= i < s.len() ==> is_ascii_char(#[trigger] s[i])
}

/// The capital of an ASCII lower-case letter; every other character itself.
pub open spec fn ascii_upper(c: char) -> char {
    if is_lower(c) {
        ((c as u32) - 32) as char
    } else {
        c
    }
}

/// A text in upper case: ASCII text letter by letter, other text as
/// `uppercase_of` has it.
pub open spec fn upper_text(s: Seq<char>) -> Seq<char> {
    if is_ascii_text(s) {
        Seq::new(s.len(), |i: int| ascii_upper(s[i]))
    } else {
        uppercase_of(s)
    }
}

/// `str::to_uppercase`. On ASCII text it turns each of `a` to `z` into its
/// capital and leaves every other character alone, so the length stays; of
/// other text the contract only names the result.
#[verifier::external_body]
pub(crate) fn to_uppercase(s: &str) -> (r: String)
    ensures
        r@ == upper_text(s@),
        !is_ascii_text(s@) ==> r@ == uppercase_of(s@),
{
    s.to_uppercase()
}

/// Upper-casing ASCII text twice is upper-casing it once.
pub proof fn lemma_upper_text_idempotent(s: Seq<char>)
    requires
        is_ascii_text(s),
    ensures
        is_ascii_text(upper_text(s)),
        upper_text(upper_text(s)) == upper_text(s),
{
    let u = upper_text(s);
    assert forall|i: int| 0 <= i < u.len() implies is_ascii_char(#[trigger] u[i]) by {
        assert(is_ascii_char(s[i]));
    }
    assert(upper_text(u) =~= u);
}

} // verus!
