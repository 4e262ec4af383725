//! Keyword catalog: the static keyword sets that drive classification.
//!
//! One mandatory keyword, an any-of pair of optional keywords, a forbidden
//! set matched word-bounded, and an ordered decoration list. The decoration
//! order is load-bearing: multi-word phrases and specific terms stand before
//! the generic terms they contain (`RING ABOVE` before `RING` and `ABOVE`,
//! every specific decoration before `WITH`), because each hit is removed from
//! the working text at once and a generic term removed too early would break
//! the more specific phrase that contains it.

use vstd::prelude::*;

verus! {

/// The forbidden keywords: description tokens that name Latin-script letters
/// with no A-Z equivalent (phonetic and archaic letters). Matched
/// word-bounded, so that fragments inside unrelated words do not reject.
pub open spec fn forbidden_list() -> Seq<Seq<char>> {
    seq![
        "ALPHA"@,
        "SCHWA"@,
        "THORN"@,
        "ETH"@,
        "ESH"@,
        "EZH"@,
        "YOGH"@,
        "WYNN"@,
        "SALTILLO"@,
        "CLICK"@,
        "GLOTTAL"@,
        "AIN"@,
        "TONE"@,
    ]
}

/// The ordered decoration keywords. Specific terms and multi-word phrases
/// come first; the generic tail (`WITH`, `AND`, bare `DOT`, `RING`, `LINE`,
/// `ABOVE`, `BELOW`, `BAR`) comes last.
pub open spec fn decoration_list() -> Seq<Seq<char>> {
    seq![
        "CIRCUMFLEX"@,
        "DIAERESIS"@,
        "CEDILLA"@,
        "OGONEK"@,
        "MACRON"@,
        "CARON"@,
        "BREVE"@,
        "TILDE"@,
        "ACUTE"@,
        "GRAVE"@,
        "STROKE"@,
        "HORN"@,
        "HOOK"@,
        "RING ABOVE"@,
        "DOT ABOVE"@,
        "DOT BELOW"@,
        "LINE BELOW"@,
        "DOUBLE"@,
        "WITH"@,
        "AND"@,
        "DOT"@,
        "RING"@,
        "LINE"@,
        "ABOVE"@,
        "BELOW"@,
        "BAR"@,
    ]
}

/// The forbidden keywords as an executable list, in catalog order.
pub fn forbidden_keywords() -> (r: Vec<&'static str>)
    ensures
        r@.len() == forbidden_list().len(),
        forall|i: int| 0 <= i < r@.len() ==> (#[trigger] r@[i])@ == forbidden_list()[i],
{
    let mut v: Vec<&'static str> = Vec::new();
    v.push("ALPHA");
    v.push("SCHWA");
    v.push("THORN");
    v.push("ETH");
    v.push("ESH");
    v.push("EZH");
    v.push("YOGH");
    v.push("WYNN");
    v.push("SALTILLO");
    v.push("CLICK");
    v.push("GLOTTAL");
    v.push("AIN");
    v.push("TONE");
    v
}

/// The decoration keywords as an executable list, in catalog order. Every
/// entry is a non-empty string.
pub fn decoration_keywords() -> (r: Vec<&'static str>)
    ensures
        r@.len() == decoration_list().len(),
        forall|i: int| 0 <= i < r@.len() ==> (#[trigger] r@[i])@ == decoration_list()[i],
        forall|i: int| 0 <= i < r@.len() ==> (#[trigger] decoration_list()[i]).len() >= 1,
{
    let mut v: Vec<&'static str> = Vec::new();
    v.push("CIRCUMFLEX");
    v.push("DIAERESIS");
    v.push("CEDILLA");
    v.push("OGONEK");
    v.push("MACRON");
    v.push("CARON");
    v.push("BREVE");
    v.push("TILDE");
    v.push("ACUTE");
    v.push("GRAVE");
    v.push("STROKE");
    v.push("HORN");
    v.push("HOOK");
    v.push("RING ABOVE");
    v.push("DOT ABOVE");
    v.push("DOT BELOW");
    v.push("LINE BELOW");
    v.push("DOUBLE");
    v.push("WITH");
    v.push("AND");
    v.push("DOT");
    v.push("RING");
    v.push("LINE");
    v.push("ABOVE");
    v.push("BELOW");
    v.push("BAR");
    proof {
        lemma_decoration_keywords_nonempty();
    }
    v
}

/// Every keyword of the decoration catalog is non-empty.
pub proof fn lemma_decoration_keywords_nonempty()
    ensures
        forall|i: int|
            0 <= i < decoration_list().len() ==> (#[trigger] decoration_list()[i]).len() >= 1,
{
    reveal_strlit("CIRCUMFLEX");
    reveal_strlit("DIAERESIS");
    reveal_strlit("CEDILLA");
    reveal_strlit("OGONEK");
    reveal_strlit("MACRON");
    reveal_strlit("CARON");
    reveal_strlit("BREVE");
    reveal_strlit("TILDE");
    reveal_strlit("ACUTE");
    reveal_strlit("GRAVE");
    reveal_strlit("STROKE");
    reveal_strlit("HORN");
    reveal_strlit("HOOK");
    reveal_strlit("RING ABOVE");
    reveal_strlit("DOT ABOVE");
    reveal_strlit("DOT BELOW");
    reveal_strlit("LINE BELOW");
    reveal_strlit("DOUBLE");
    reveal_strlit("WITH");
    reveal_strlit("AND");
    reveal_strlit("DOT");
    reveal_strlit("RING");
    reveal_strlit("LINE");
    reveal_strlit("ABOVE");
    reveal_strlit("BELOW");
    reveal_strlit("BAR");
}

} // verus!
