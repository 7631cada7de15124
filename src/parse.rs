use vstd::prelude::*;

use crate::entry::entry_span;
use crate::entry::Entry;
use crate::entry::Ident;
use crate::entry::LiteralValue;
use crate::error::Error;
use crate::lexer::string_from_chars;
use crate::span::Span;
use crate::stream::spaces_at;
use crate::stream::ParseStream;

verus! {

/// A value that can be read off a cursor.
///
/// An implementation may move the cursor forward only, reads one stream, and
/// only appends to the cursor's diagnostics. Rolling back after a failure is
/// the cursor's job (see `ParseStream::parse`).
pub trait Parse: Sized {
    fn parse(input: &mut ParseStream) -> (r: Result<Self, Error>)
        requires
            old(input).wf(),
        ensures
            final(input).wf(),
            final(input).same_stream(*old(input)),
            old(input).pos <= final(input).pos,
            old(input).errors@.len() <= final(input).errors@.len(),
            final(input).errors@.subrange(0, old(input).errors@.len() as int) == old(input).errors@,
            r is Err ==> r->Err_0.wf(),
    ;
}

/// A single lexical unit.
pub trait Token: Parse {}

/// A punctuation token with a fixed display text.
pub trait Punct: Token {
    fn display() -> String;
}

/// A punctuation token made of whitespace.
pub trait WhiteSpace: Punct {}

impl<'a> ParseStream<'a> {
    /// Parses a `T`. On failure the cursor is back where it was; any
    /// diagnostics recorded on the way stay.
    pub fn parse<T: Parse>(&mut self) -> (r: Result<T, Error>)
        requires
            old(self).wf(),
        ensures
            final(self).wf(),
            final(self).same_stream(*old(self)),
            old(self).pos <= final(self).pos,
            old(self).errors@.len() <= final(self).errors@.len(),
            final(self).errors@.subrange(0, old(self).errors@.len() as int) == old(self).errors@,
            r is Err ==> final(self).pos == old(self).pos && r->Err_0.wf(),
    {
        let start = self.pos;
        let r = T::parse(self);
        if r.is_err() {
            self.pos = start;
        }
        r
    }

    /// Parses a `T` speculatively: on failure the cursor and its diagnostics
    /// are exactly as they were before.
    pub fn try_parse<T: Parse>(&mut self) -> (r: Result<T, Error>)
        requires
            old(self).wf(),
        ensures
            final(self).wf(),
            final(self).same_stream(*old(self)),
            old(self).pos <= final(self).pos,
            old(self).errors@.len() <= final(self).errors@.len(),
            final(self).errors@.subrange(0, old(self).errors@.len() as int) == old(self).errors@,
            r is Err ==> final(self).pos == old(self).pos && final(self).errors@ == old(
                self,
            ).errors@ && r->Err_0.wf(),
    {
        let start = self.pos;
        let count = self.errors.len();
        let r = T::parse(self);
        if r.is_err() {
            self.pos = start;
            self.errors.truncate(count);
        }
        r
    }

    /// Whether a `T` would parse here. Nothing is consumed or recorded.
    pub fn peek<T: Parse>(&self) -> (r: bool)
        requires
            self.wf(),
    {
        let mut fork = self.fork();
        let r: Result<T, Error> = fork.parse();
        r.is_ok()
    }
}

impl<T: Token> Parse for Option<T> {
    /// A `T` if one parses here; otherwise nothing, with the cursor unmoved.
    fn parse(input: &mut ParseStream) -> (r: Result<Self, Error>)
        ensures
            r is Ok,
            r->Ok_0 is None ==> final(input).pos == old(input).pos && final(input).errors@ == old(
                input,
            ).errors@,
    {
        match input.try_parse::<T>() {
            Ok(value) => Ok(Some(value)),
            Err(_) => Ok(None),
        }
    }
}

impl Parse for Ident {
    fn parse(input: &mut ParseStream) -> (r: Result<Self, Error>)
        ensures
            r is Ok <==> (old(input).at() < old(input).tokens().len()
                && old(input).tokens()[old(input).at()] is Ident),
            r is Ok ==> final(input).pos == old(input).at() + 1 && r->Ok_0.string@ == old(
                input,
            ).tokens()[old(input).at()]->Ident_0.string@ && r->Ok_0.span == old(
                input,
            ).tokens()[old(input).at()]->Ident_0.span,
            r is Err ==> final(input).pos == old(input).pos,
    {
        match input.parse_ident() {
            Ok(ident) => Ok(Ident { string: ident.string.clone(), span: ident.span }),
            Err(e) => Err(e),
        }
    }
}

impl Token for Ident {}

/// An integer literal.
#[derive(Clone, Copy, Debug, PartialEq, Eq, Structural)]
pub struct LitInt {
    pub value: i64,
    pub span: Span,
}

/// The entry at `pos` is an integer literal.
pub open spec fn int_at(tokens: Seq<Entry>, pos: int) -> bool {
    0 <= pos < tokens.len() && tokens[pos] is Literal && tokens[pos]->Literal_0.value is Int
}

impl Parse for LitInt {
    fn parse(input: &mut ParseStream) -> (r: Result<Self, Error>)
        ensures
            r is Ok <==> int_at(old(input).tokens(), old(input).at()),
            r is Ok ==> final(input).pos == old(input).at() + 1 && r->Ok_0.value == old(
                input,
            ).tokens()[old(input).at()]->Literal_0.value->Int_0 && r->Ok_0.span == old(
                input,
            ).tokens()[old(input).at()]->Literal_0.span,
            r is Err ==> final(input).pos == old(input).pos,
    {
        let start = input.pos;
        match input.parse_literal() {
            Ok(lit) => match lit.value {
                LiteralValue::Int(value) => Ok(LitInt { value, span: lit.span }),
                _ => {
                    input.pos = start;
                    let expected = string_from_chars(&vec!['i', 'n', 't', 'e', 'g', 'e', 'r']);
                    let span = input.error_span();
                    Err(crate::stream::unexpected_error(&input.source, expected, span))
                },
            },
            Err(e) => Err(e),
        }
    }
}

impl Token for LitInt {}

/// Two spaces.
#[derive(Clone, Copy, Debug, PartialEq, Eq, Structural)]
pub struct Space2(pub Span);

impl Parse for Space2 {
    fn parse(input: &mut ParseStream) -> (r: Result<Self, Error>)
        ensures
            r is Ok <==> spaces_at(old(input).tokens(), old(input).pos as int, 2),
            r is Ok ==> final(input).pos == old(input).pos + 1 && r->Ok_0.0 == entry_span(
                old(input).tokens()[old(input).pos as int],
            ),
            r is Err ==> final(input).pos == old(input).pos,
    {
        match input.parse_spaces(2) {
            Ok(span) => Ok(Space2(span)),
            Err(e) => Err(e),
        }
    }
}

impl Token for Space2 {}

impl Punct for Space2 {
    fn display() -> (r: String)
        ensures
            r@ == seq![' ', ' '],
    {
        string_from_chars(&vec![' ', ' '])
    }
}

impl WhiteSpace for Space2 {}

/// Four spaces.
#[derive(Clone, Copy, Debug, PartialEq, Eq, Structural)]
pub struct Space4(pub Span);

impl Parse for Space4 {
    fn parse(input: &mut ParseStream) -> (r: Result<Self, Error>)
        ensures
            r is Ok <==> spaces_at(old(input).tokens(), old(input).pos as int, 4),
            r is Ok ==> final(input).pos == old(input).pos + 1 && r->Ok_0.0 == entry_span(
                old(input).tokens()[old(input).pos as int],
            ),
            r is Err ==> final(input).pos == old(input).pos,
    {
        match input.parse_spaces(4) {
            Ok(span) => Ok(Space4(span)),
            Err(e) => Err(e),
        }
    }
}

impl Token for Space4 {}

impl Punct for Space4 {
    fn display() -> (r: String)
        ensures
            r@ == seq![' ', ' ', ' ', ' '],
    {
        string_from_chars(&vec![' ', ' ', ' ', ' '])
    }
}

impl WhiteSpace for Space4 {}

} // verus!
