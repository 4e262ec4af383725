//! One- or two-letter uppercase equivalent of a code point.

use vstd::prelude::*;

verus! {

/// Uppercase A-Z equivalent of a code point: one letter or a two-letter
/// digraph (for ligatures such as AE). The type has no representation for
/// zero letters or for three and more, so a residual of any other length
/// must be rejected before a `Letter` is built.
#[derive(Debug, Clone, Copy, PartialEq, Eq)]
pub enum Letter {
    /// Single uppercase letter equivalent
    Letter(char),
    /// Double uppercase letter equivalent
    Letters(char, char),
}

/// The characters of a letter, in order: one for `Letter`, two for `Letters`.
pub open spec fn letter_chars(l: Letter) -> Seq<char> {
    match l {
        Letter::Letter(c) => seq![c],
        Letter::Letters(c1, c2) => seq![c1, c2],
    }
}

impl Letter {
    /// The letter rendered as a string of its one or two characters.
    pub fn to_text(&self) -> (r: String)
        ensures
            r@ == letter_chars(*self),
    {
        let mut r = String::new();
        match self {
            Letter::Letter(c) => {
                push_char(&mut r, *c);
            },
            Letter::Letters(c1, c2) => {
                push_char(&mut r, *c1);
                push_char(&mut r, *c2);
            },
        }
        proof {
            assert(r@ =~= letter_chars(*self));
        }
        r
    }
}

/// Law: a letter always renders as one or two characters, never zero and
/// never three or more.
pub proof fn lemma_letter_length(l: Letter)
    ensures
        1 <= letter_chars(l).len() <= 2,
{
}

/// Relies on String::push: appends the given character to the end of the
/// string and changes nothing else.
#[verifier::external_body]
pub(crate) fn push_char(s: &mut String, c: char)
    ensures
        final(s)@ == old(s)@.push(c),
{
    s.push(c);
}

} // verus!
