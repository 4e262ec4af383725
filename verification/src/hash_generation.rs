//! Classification records: the per-code-point result of running the
//! classifier and the parser on one Unicode database description line.

use vstd::prelude::*;
use vstd::string::*;

use crate::classifier::classify;
use crate::classifier::classify_spec;
use crate::parser::capital_fires;
use crate::parser::decoration_fires;
use crate::parser::parse;
use crate::parser::residual_letter;
use crate::parser::small_fires;

verus! {

/// Classification record for one accepted code point: the code point, its
/// original description, the derived uppercase A-Z equivalent string, and
/// the three boolean properties.
#[derive(Debug, Clone)]
pub struct EndPoint {
    /// Unicode code point
    pub code_point: u32,
    /// Textual description (Unicode database)
    pub description: String,
    /// Uppercase A-Z equivalent
    pub uppercase_az: String,
    /// true if uppercase letter
    pub is_capital: bool,
    /// true if lowercase letter
    pub is_small: bool,
    /// true if additional letter decoration (accent, cedilla, etc)
    pub is_decoration: bool,
}

impl EndPoint {
    /// Builds a record from its parts.
    pub fn new(
        code_point: u32,
        description: String,
        uppercase_az: String,
        is_capital: bool,
        is_small: bool,
        is_decoration: bool,
    ) -> (r: Self)
        ensures
            r.code_point == code_point,
            r.description == description,
            r.uppercase_az == uppercase_az,
            r.is_capital == is_capital,
            r.is_small == is_small,
            r.is_decoration == is_decoration,
    {
        Self { code_point, description, uppercase_az, is_capital, is_small, is_decoration }
    }
}

/// Runs the classifier and, on acceptance, the parser on one description,
/// and builds the classification record for the code point. Returns `None`
/// exactly when the classifier rejects the description.
pub fn record_for(code_point: u32, description: &str) -> (r: Option<EndPoint>)
    ensures
        r is Some <==> classify_spec(description@),
        r matches Some(e) ==> {
            &&& e.code_point == code_point
            &&& e.description@ == description@
            &&& e.uppercase_az@ == residual_letter(description@)
            &&& e.is_capital == capital_fires(description@)
            &&& e.is_small == small_fires(description@)
            &&& e.is_decoration == decoration_fires(description@)
        },
{
    if !classify(description) {
        return None;
    }
    let parsed = parse(description);
    let letter = parsed.letter_text();
    Some(
        EndPoint::new(
            code_point,
            String::from_str(description),
            letter,
            parsed.is_capital,
            parsed.is_small,
            parsed.is_decoration,
        ),
    )
}

} // verus!
