//! Description parser: strips structural and decoration keywords from an
//! accepted description, in a load-bearing order, and derives the residual
//! uppercase letter string and the three boolean properties.
//!
//! Stage order: the structural keywords `LATIN`, `LETTER`, `LIGATURE` are
//! removed as plain substrings; then `CAPITAL` and then `SMALL` are tested
//! word-bounded and removed if present; then each decoration keyword, in the
//! catalog's declared order, is tested word-bounded on the progressively
//! edited text and removed when it fires; finally all spaces are removed and
//! the residual is the letter string.

use vstd::prelude::*;
use vstd::string::*;

use crate::catalog::decoration_keywords;
use crate::catalog::decoration_list;
use crate::letter::push_char;
use crate::text::contains_seq;
use crate::text::lemma_contains_len;
use crate::text::lemma_no_space_not_word_bounded;
use crate::text::lemma_remove_all_absent;
use crate::text::lemma_strip_spaces_identity;
use crate::text::lemma_strip_spaces_no_space;
use crate::text::no_space;
use crate::text::remove_all;
use crate::text::remove_all_spec;
use crate::text::strip_spaces;
use crate::text::strip_spaces_exec;
use crate::text::to_chars;
use crate::text::word_bounded;
use crate::text::word_bounded_spec;

verus! {

/// The description after plain removal of the structural keywords, in order:
/// `LATIN`, then `LETTER`, then `LIGATURE`.
pub open spec fn after_structural(d: Seq<char>) -> Seq<char> {
    remove_all_spec(remove_all_spec(remove_all_spec(d, "LATIN"@), "LETTER"@), "LIGATURE"@)
}

/// Whether `CAPITAL` fires: tested word-bounded on the text left by the
/// structural stage.
pub open spec fn capital_fires(d: Seq<char>) -> bool {
    word_bounded_spec(after_structural(d), "CAPITAL"@)
}

/// The working text after the `CAPITAL` stage.
pub open spec fn after_capital(d: Seq<char>) -> Seq<char> {
    if capital_fires(d) {
        remove_all_spec(after_structural(d), "CAPITAL"@)
    } else {
        after_structural(d)
    }
}

/// Whether `SMALL` fires: tested word-bounded on the text left by the
/// `CAPITAL` stage, so that removing `CAPITAL` can affect the match.
pub open spec fn small_fires(d: Seq<char>) -> bool {
    word_bounded_spec(after_capital(d), "SMALL"@)
}

/// The working text after the `SMALL` stage.
pub open spec fn after_small(d: Seq<char>) -> Seq<char> {
    if small_fires(d) {
        remove_all_spec(after_capital(d), "SMALL"@)
    } else {
        after_capital(d)
    }
}

/// The working text after the first `i` decoration keywords of the catalog
/// have been tested word-bounded, each hit removed at once.
pub open spec fn decoration_text(d: Seq<char>, i: int) -> Seq<char>
    decreases i,
{
    if i <= 0 {
        after_small(d)
    } else {
        let t = decoration_text(d, i - 1);
        let k = decoration_list()[i - 1];
        if word_bounded_spec(t, k) {
            remove_all_spec(t, k)
        } else {
            t
        }
    }
}

/// The decoration keywords among the first `i` of the catalog that fired, in
/// catalog order.
pub open spec fn fired_list(d: Seq<char>, i: int) -> Seq<Seq<char>>
    decreases i,
{
    if i <= 0 {
        Seq::empty()
    } else {
        let t = decoration_text(d, i - 1);
        let k = decoration_list()[i - 1];
        if word_bounded_spec(t, k) {
            fired_list(d, i - 1).push(k)
        } else {
            fired_list(d, i - 1)
        }
    }
}

/// Whether any decoration keyword fired.
pub open spec fn decoration_fires(d: Seq<char>) -> bool {
    fired_list(d, decoration_list().len() as int).len() > 0
}

/// The residual letter string: the final working text with all spaces
/// removed. Length 1 or 2 is the expected outcome; 0 or more than 2 is a
/// parser-detectable anomaly that the caller must handle.
pub open spec fn residual_letter(d: Seq<char>) -> Seq<char> {
    strip_spaces(decoration_text(d, decoration_list().len() as int))
}

/// The parser's result: the residual letter characters, the three boolean
/// properties, and the decoration keywords that fired, in catalog order.
pub struct Parsed {
    /// The residual uppercase letter characters, in order
    pub letter: Vec<char>,
    /// Whether `CAPITAL` fired
    pub is_capital: bool,
    /// Whether `SMALL` fired
    pub is_small: bool,
    /// Whether at least one decoration keyword fired
    pub is_decoration: bool,
    /// The decoration keywords that fired, in catalog order
    pub fired: Vec<String>,
}

impl Parsed {
    /// The residual letter rendered as a string.
    pub fn letter_text(&self) -> (r: String)
        ensures
            r@ == self.letter@,
    {
        let mut r = String::new();
        let mut i: usize = 0;
        while i < self.letter.len()
            invariant
                i <= self.letter@.len(),
                r@ == self.letter@.subrange(0, i as int),
            decreases self.letter@.len() - i,
        {
            push_char(&mut r, self.letter[i]);
            proof {
                assert(r@ =~= self.letter@.subrange(0, i as int + 1));
            }
            i = i + 1;
        }
        proof {
            assert(self.letter@.subrange(0, self.letter@.len() as int) =~= self.letter@);
        }
        r
    }
}

/// Parses an accepted description: strips the structural keywords, tests and
/// strips `CAPITAL`, `SMALL` and the decoration keywords in their load-bearing
/// order, and returns the residual letter string with the derived properties.
pub fn parse(description: &str) -> (r: Parsed)
    ensures
        r.letter@ == residual_letter(description@),
        r.is_capital == capital_fires(description@),
        r.is_small == small_fires(description@),
        r.is_decoration == decoration_fires(description@),
        r.fired@.len() == fired_list(description@, decoration_list().len() as int).len(),
        forall|i: int|
            0 <= i < r.fired@.len() ==> (#[trigger] r.fired@[i])@ == fired_list(
                description@,
                decoration_list().len() as int,
            )[i],
{
    let ghost d = description@;
    let chars = to_chars(description);
    proof {
        reveal_strlit("LATIN");
        reveal_strlit("LETTER");
        reveal_strlit("LIGATURE");
        reveal_strlit("CAPITAL");
        reveal_strlit("SMALL");
    }
    let t1 = remove_all(&chars, "LATIN");
    let t2 = remove_all(&t1, "LETTER");
    let mut text = remove_all(&t2, "LIGATURE");
    let is_capital = word_bounded(&text, "CAPITAL");
    if is_capital {
        text = remove_all(&text, "CAPITAL");
    }
    let is_small = word_bounded(&text, "SMALL");
    if is_small {
        text = remove_all(&text, "SMALL");
    }
    proof {
        assert(text@ == after_small(d));
        assert(decoration_text(d, 0) == after_small(d));
    }
    let decorations = decoration_keywords();
    let mut fired: Vec<String> = Vec::new();
    let mut is_decoration = false;
    let mut i: usize = 0;
    while i < decorations.len()
        invariant
            decorations@.len() == decoration_list().len(),
            forall|j: int|
                0 <= j < decorations@.len() ==> (#[trigger] decorations@[j])@
                    == decoration_list()[j],
            forall|j: int|
                0 <= j < decorations@.len() ==> (#[trigger] decoration_list()[j]).len() >= 1,
            i <= decorations@.len(),
            text@ == decoration_text(d, i as int),
            fired@.len() == fired_list(d, i as int).len(),
            forall|j: int|
                0 <= j < fired@.len() ==> (#[trigger] fired@[j])@ == fired_list(d, i as int)[j],
            is_decoration == (fired_list(d, i as int).len() > 0),
        decreases decorations@.len() - i,
    {
        let kw = decorations[i];
        if word_bounded(&text, kw) {
            is_decoration = true;
            fired.push(String::from_str(kw));
            text = remove_all(&text, kw);
        }
        i = i + 1;
    }
    let letter = strip_spaces_exec(&text);
    Parsed { letter, is_capital, is_small, is_decoration, fired }
}

/// Under the decoration stage, a text without spaces is a fixed point: no
/// keyword is word-bounded in it, so nothing fires and nothing changes.
proof fn lemma_decoration_stage_fixed(t: Seq<char>, i: int)
    requires
        no_space(t),
        after_small(t) == t,
        0 <= i <= decoration_list().len(),
    ensures
        decoration_text(t, i) == t,
        fired_list(t, i) == Seq::<Seq<char>>::empty(),
    decreases i,
{
    if i > 0 {
        lemma_decoration_stage_fixed(t, i - 1);
        lemma_no_space_not_word_bounded(t, decoration_list()[i - 1]);
    }
}

/// Law: on a text without spaces in which none of the structural keywords
/// `LATIN`, `LETTER`, `LIGATURE` occurs, the parser finds no further keyword
/// match: no property fires, no decoration keyword fires, and the residual is
/// the text itself. Word-bounded tests need a space in the text, so only the
/// three plain-substring removals have to be ruled out by hypothesis.
pub proof fn lemma_parser_no_matches(t: Seq<char>)
    requires
        no_space(t),
        !contains_seq(t, "LATIN"@),
        !contains_seq(t, "LETTER"@),
        !contains_seq(t, "LIGATURE"@),
    ensures
        !capital_fires(t),
        !small_fires(t),
        fired_list(t, decoration_list().len() as int) == Seq::<Seq<char>>::empty(),
        residual_letter(t) == t,
{
    lemma_remove_all_absent(t, "LATIN"@);
    lemma_remove_all_absent(t, "LETTER"@);
    lemma_remove_all_absent(t, "LIGATURE"@);
    assert(after_structural(t) == t);
    lemma_no_space_not_word_bounded(t, "CAPITAL"@);
    lemma_no_space_not_word_bounded(t, "SMALL"@);
    assert(after_small(t) == t);
    lemma_decoration_stage_fixed(t, decoration_list().len() as int);
    lemma_strip_spaces_identity(t);
}

/// Law: a text of at most two characters without spaces is left unchanged by
/// the parser; every structural keyword is longer than two characters, so
/// none can occur in it.
pub proof fn lemma_parser_stable_on_short(t: Seq<char>)
    requires
        no_space(t),
        t.len() <= 2,
    ensures
        !capital_fires(t),
        !small_fires(t),
        fired_list(t, decoration_list().len() as int) == Seq::<Seq<char>>::empty(),
        residual_letter(t) == t,
{
    reveal_strlit("LATIN");
    reveal_strlit("LETTER");
    reveal_strlit("LIGATURE");
    if contains_seq(t, "LATIN"@) {
        lemma_contains_len(t, "LATIN"@);
    }
    if contains_seq(t, "LETTER"@) {
        lemma_contains_len(t, "LETTER"@);
    }
    if contains_seq(t, "LIGATURE"@) {
        lemma_contains_len(t, "LIGATURE"@);
    }
    lemma_parser_no_matches(t);
}

/// The residual letter string never holds a space.
pub proof fn lemma_residual_no_space(d: Seq<char>)
    ensures
        no_space(residual_letter(d)),
{
    lemma_strip_spaces_no_space(decoration_text(d, decoration_list().len() as int));
}

/// Law: the parser is idempotent on its own residual wherever the residual
/// is a well-formed letter string of at most two characters. Re-running the
/// parser on it matches no keyword: the residual comes back unchanged and no
/// property fires. (A residual longer than two characters is an anomaly and
/// can itself hold a structural keyword, e.g. when stripping the spaces of
/// an anomalous description glues one together, so it is excluded here.)
pub proof fn lemma_parser_idempotent(d: Seq<char>)
    requires
        residual_letter(d).len() <= 2,
    ensures
        residual_letter(residual_letter(d)) == residual_letter(d),
        !capital_fires(residual_letter(d)),
        !small_fires(residual_letter(d)),
        fired_list(residual_letter(d), decoration_list().len() as int)
            == Seq::<Seq<char>>::empty(),
{
    lemma_residual_no_space(d);
    lemma_parser_stable_on_short(residual_letter(d));
}

} // verus!
