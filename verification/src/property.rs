//! Classification property of a code point: capital, small, decoration.

use vstd::prelude::*;

verus! {

/// Classification outcome for a code point, selected by the three booleans
/// `is_capital`, `is_small`, `is_decoration` that the description parser
/// derives. The triple (false, false, true) has no named outcome and maps to
/// the explicit `Unknown` fallback.
#[derive(Debug, Clone, Copy, PartialEq, Eq)]
pub enum Property {
    /// The code point cannot be converted to uppercase A-Z, e.g. 1, 2, ...
    NotAnUppercase,
    /// A capital letter such as A, B, ...
    Capital,
    /// A small letter such as a, b, ...
    Small,
    /// A small capital letter
    SmallAndCapital,
    /// A capital letter with a decoration
    CapitalWithDecoration,
    /// A small letter with a decoration
    SmallWithDecoration,
    /// A small capital letter with an extra decoration
    SmallAndCapitalWithDecoration,
    /// Fallback for the one boolean triple with no named outcome:
    /// decoration present, but neither capital nor small
    Unknown,
}

/// Which property the boolean triple (capital, small, decoration) selects.
pub open spec fn property_of_flags(capital: bool, small: bool, decoration: bool) -> Property {
    match (capital, small, decoration) {
        (false, false, false) => Property::NotAnUppercase,
        (true, false, false) => Property::Capital,
        (false, true, false) => Property::Small,
        (true, true, false) => Property::SmallAndCapital,
        (true, false, true) => Property::CapitalWithDecoration,
        (false, true, true) => Property::SmallWithDecoration,
        (true, true, true) => Property::SmallAndCapitalWithDecoration,
        (false, false, true) => Property::Unknown,
    }
}

impl Property {
    /// Whether this property marks a capital letter.
    #[must_use]
    pub fn is_capital(self) -> (r: bool)
        ensures
            r == self.spec_is_capital(),
    {
        matches!(
            self,
            Self::Capital
                | Self::SmallAndCapital
                | Self::CapitalWithDecoration
                | Self::SmallAndCapitalWithDecoration
        )
    }

    /// Whether this property marks a small letter.
    #[must_use]
    pub fn is_small(self) -> (r: bool)
        ensures
            r == self.spec_is_small(),
    {
        matches!(
            self,
            Self::Small
                | Self::SmallAndCapital
                | Self::SmallWithDecoration
                | Self::SmallAndCapitalWithDecoration
        )
    }

    /// Whether this property marks a decorated letter.
    #[must_use]
    pub fn is_decoration(self) -> (r: bool)
        ensures
            r == self.spec_is_decoration(),
    {
        matches!(
            self,
            Self::CapitalWithDecoration
                | Self::SmallWithDecoration
                | Self::SmallAndCapitalWithDecoration
        )
    }

    pub open spec fn spec_is_capital(self) -> bool {
        match self {
            Self::Capital
            | Self::SmallAndCapital
            | Self::CapitalWithDecoration
            | Self::SmallAndCapitalWithDecoration => true,
            _ => false,
        }
    }

    pub open spec fn spec_is_small(self) -> bool {
        match self {
            Self::Small
            | Self::SmallAndCapital
            | Self::SmallWithDecoration
            | Self::SmallAndCapitalWithDecoration => true,
            _ => false,
        }
    }

    pub open spec fn spec_is_decoration(self) -> bool {
        match self {
            Self::CapitalWithDecoration
            | Self::SmallWithDecoration
            | Self::SmallAndCapitalWithDecoration => true,
            _ => false,
        }
    }
}

/// Builds the property selected by the boolean triple the parser derived.
pub fn property_from_flags(capital: bool, small: bool, decoration: bool) -> (p: Property)
    ensures
        p == property_of_flags(capital, small, decoration),
{
    match (capital, small, decoration) {
        (false, false, false) => Property::NotAnUppercase,
        (true, false, false) => Property::Capital,
        (false, true, false) => Property::Small,
        (true, true, false) => Property::SmallAndCapital,
        (true, false, true) => Property::CapitalWithDecoration,
        (false, true, true) => Property::SmallWithDecoration,
        (true, true, true) => Property::SmallAndCapitalWithDecoration,
        (false, false, true) => Property::Unknown,
    }
}

/// Law: the property predicates agree with the boolean triple that selected
/// the property. For every triple except (capital=false, small=false,
/// decoration=true) - which selects the `Unknown` fallback - the selected
/// property answers `is_capital`, `is_small` and `is_decoration` exactly with
/// the triple's values.
pub proof fn lemma_property_predicates_consistent(capital: bool, small: bool, decoration: bool)
    requires
        !(!capital && !small && decoration),
    ensures
        property_of_flags(capital, small, decoration).spec_is_capital() == capital,
        property_of_flags(capital, small, decoration).spec_is_small() == small,
        property_of_flags(capital, small, decoration).spec_is_decoration() == decoration,
{
}

/// Law: the `Unknown` fallback, selected by the one unnamed triple
/// (capital=false, small=false, decoration=true), answers every predicate
/// with false, exactly as the `NotAnUppercase` sentinel does.
pub proof fn lemma_unknown_predicates_all_false()
    ensures
        property_of_flags(false, false, true) == Property::Unknown,
        !Property::Unknown.spec_is_capital(),
        !Property::Unknown.spec_is_small(),
        !Property::Unknown.spec_is_decoration(),
{
}

} // verus!
