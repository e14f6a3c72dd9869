//! A rule-based substitution engine: each value of an input sequence becomes
//! the concatenation of the texts of the rules it matches, or its own decimal
//! form when it matches none.

pub mod fizzy;
pub mod laws;
pub mod rules;
pub mod text;
pub mod value;

pub use fizzy::{fizz_buzz, Fizzy};
pub use rules::Matcher;
pub use value::FizzValue;
