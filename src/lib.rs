//! A toolkit for hand-written recursive-descent parsers: a tokenizer that
//! keeps every character of the source, a cursor with speculative parsing
//! and rollback, composite punctuation assembled at parse time, separated
//! lists, and an error model that gathers many diagnostics in one pass.
use vstd::prelude::*;

pub mod span;
pub mod token;
pub mod error;
pub mod entry;
pub mod lexer;
pub mod display;
pub mod stream;
pub mod parse;
pub mod group;
pub mod lookahead;
pub mod recovery;
pub mod punctuated;
pub mod driver;
pub mod report;

pub use driver::parse;
pub use driver::parse_string;
pub use entry::Delimiter;
pub use entry::Entry;
pub use entry::Ident;
pub use entry::Literal;
pub use entry::LiteralValue;
pub use entry::SingleCharPunct;
pub use entry::Spacing;
pub use entry::TokenStream;
pub use error::Error;
pub use error::ErrorKind;
pub use error::SingleError;
pub use group::Group;
pub use lexer::tokenize;
pub use lookahead::Lookahead;
pub use parse::LitInt;
pub use parse::Parse;
pub use parse::Punct;
pub use parse::Space2;
pub use parse::Space4;
pub use parse::Token;
pub use parse::WhiteSpace;
pub use punctuated::Punctuated;
pub use recovery::parse_recovering;
pub use report::Report;
pub use span::SourceFile;
pub use span::Span;
pub use stream::ParseStream;
pub use token::CompositeKind;
pub use token::PunctKind;

verus! {

} // verus!
