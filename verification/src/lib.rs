//! Uppercase A-Z equivalents for Unicode code points.
//!
//! The library classifies Unicode database description strings, derives the
//! one- or two-letter uppercase equivalent of each accepted code point together
//! with its capital / small / decoration properties, and builds an immutable
//! lookup table that maps code points to those equivalents.

pub mod letter;
pub use letter::Letter;

pub mod property;
pub use property::Property;

pub mod uppercase;
pub use uppercase::{not_an_uppercase, Uppercase};

pub mod uppercase_az;
pub use uppercase_az::UppercaseAZ;

pub mod catalog;
pub mod classifier;
pub mod hash_generation;
pub mod parser;
pub mod text;

pub use hash_generation::EndPoint;
