//! Token layer of a lexer/parser toolkit.
//!
//! A *token kind* is a rule for recognizing one lexical unit at an exact
//! byte offset of a source text.  Kinds are erased into small comparable
//! [`TokenType`] handles, each carrying a process-unique identity token;
//! a successful match pairs a handle with the matched span in an
//! [`AnyToken`].

use vstd::prelude::*;

pub mod engine;
pub mod location;
pub mod pattern;
pub mod token;

pub use location::Location;
pub use location::LocationRange;
pub use pattern::PatternError;
pub use pattern::TokenPattern;
pub use token::AnyToken;
pub use token::Eof;
pub use token::TokenDef;
pub use token::TokenType;

verus! {

} // verus!
