//! Latin-letter classifier: accepts or rejects a description string as a
//! Latin letter candidate, by the keyword catalog's rules.

use vstd::prelude::*;

use crate::catalog::forbidden_keywords;
use crate::catalog::forbidden_list;
use crate::text::contains_seq;
use crate::text::contains_sub;
use crate::text::to_chars;
use crate::text::word_bounded;
use crate::text::word_bounded_spec;

verus! {

/// Whether a description is accepted as a Latin letter candidate:
/// the mandatory keyword `LATIN` occurs as a plain substring, at least one of
/// the optional keywords `LETTER` or `LIGATURE` occurs as a plain substring,
/// and no forbidden keyword occurs word-bounded.
pub open spec fn classify_spec(d: Seq<char>) -> bool {
    &&& contains_seq(d, "LATIN"@)
    &&& (contains_seq(d, "LETTER"@) || contains_seq(d, "LIGATURE"@))
    &&& (forall|i: int|
        0 <= i < forbidden_list().len() ==> !word_bounded_spec(d, #[trigger] forbidden_list()[i]))
}

/// Decides whether the description denotes a Latin letter candidate.
/// Pure predicate; evaluates mandatory, then optional, then forbidden rules.
pub fn classify(description: &str) -> (r: bool)
    ensures
        r == classify_spec(description@),
{
    let chars = to_chars(description);
    proof {
        reveal_strlit("LATIN");
        reveal_strlit("LETTER");
        reveal_strlit("LIGATURE");
    }
    if !contains_sub(&chars, "LATIN") {
        return false;
    }
    if !contains_sub(&chars, "LETTER") && !contains_sub(&chars, "LIGATURE") {
        return false;
    }
    let forbidden = forbidden_keywords();
    let mut i: usize = 0;
    while i < forbidden.len()
        invariant
            chars@ == description@,
            forbidden@.len() == forbidden_list().len(),
            forall|j: int|
                0 <= j < forbidden@.len() ==> (#[trigger] forbidden@[j])@ == forbidden_list()[j],
            i <= forbidden@.len(),
            forall|j: int|
                0 <= j < i ==> !word_bounded_spec(description@, #[trigger] forbidden_list()[j]),
        decreases forbidden@.len() - i,
    {
        if word_bounded(&chars, forbidden[i]) {
            return false;
        }
        i = i + 1;
    }
    true
}

/// Law: a description missing the mandatory keyword `LATIN` is rejected.
pub proof fn lemma_reject_without_latin(d: Seq<char>)
    requires
        !contains_seq(d, "LATIN"@),
    ensures
        !classify_spec(d),
{
}

/// Law: a description holding neither optional keyword `LETTER` nor
/// `LIGATURE` is rejected.
pub proof fn lemma_reject_without_optional(d: Seq<char>)
    requires
        !contains_seq(d, "LETTER"@),
        !contains_seq(d, "LIGATURE"@),
    ensures
        !classify_spec(d),
{
}

/// Law: a description holding a forbidden keyword word-bounded is rejected,
/// whatever else it holds.
pub proof fn lemma_reject_forbidden(d: Seq<char>, i: int)
    requires
        0 <= i < forbidden_list().len(),
        word_bounded_spec(d, forbidden_list()[i]),
    ensures
        !classify_spec(d),
{
}

} // verus!
