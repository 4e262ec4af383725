//! The compiled, queryable unit: uppercase letter equivalent plus property.

use vstd::prelude::*;

use crate::letter::letter_chars;
use crate::letter::Letter;
use crate::property::Property;

verus! {

/// Uppercase letter(s) equivalent and property of a code point.
#[derive(Debug, Clone, Copy, PartialEq, Eq)]
pub struct Uppercase {
    /// Uppercase letter(s) equivalent
    pub letter: Letter,
    /// Uppercase letter(s) property
    pub property: Property,
}

/// The sentinel returned for a code point with no uppercase A-Z equivalent:
/// letter `?`, property `NotAnUppercase`.
pub open spec fn not_an_uppercase_spec() -> Uppercase {
    Uppercase { letter: Letter::Letter('?'), property: Property::NotAnUppercase }
}

/// Builds the sentinel value for "no uppercase A-Z equivalent".
pub fn not_an_uppercase() -> (r: Uppercase)
    ensures
        r == not_an_uppercase_spec(),
{
    Uppercase { letter: Letter::Letter('?'), property: Property::NotAnUppercase }
}

impl Uppercase {
    /// The entry rendered as a string: the one or two characters of its
    /// letter.
    pub fn to_text(&self) -> (r: String)
        ensures
            r@ == letter_chars(self.letter),
    {
        self.letter.to_text()
    }
}

} // verus!
