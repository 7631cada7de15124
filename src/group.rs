use vstd::prelude::*;

use crate::display::not_space;
use crate::display::same_entry;
use crate::entry::open_char;
use crate::entry::Delimiter;
use crate::entry::Entry;
use crate::entry::TokenStream;
use crate::error::Error;
use crate::error::ErrorKind;
use crate::lexer::string_from_chars;
use crate::span::Span;
use crate::stream::fails_unexpected;
use crate::stream::span_at;
use crate::stream::unexpected_error;
use crate::stream::ParseStream;

verus! {

/// A bracketed group read off a cursor, with the stream of its interior.
#[derive(Debug)]
pub struct Group<'a> {
    pub delimiter: Delimiter,
    pub open: Span,
    pub close: Span,
    pub stream: &'a TokenStream,
}

impl<'a> Group<'a> {
    pub fn open_span(&self) -> (r: Span)
        ensures
            r == self.open,
    {
        self.open
    }

    pub fn close_span(&self) -> (r: Span)
        ensures
            r == self.close,
    {
        self.close
    }

    /// A copy of the interior without its whitespace runs, for grammars
    /// that do not care about spacing.
    pub fn remove_whitespace(&self) -> (r: TokenStream)
        ensures
            r.tokens@.len() == self.stream.tokens@.filter(|e: Entry| not_space(e)).len(),
            forall|k: int|
                0 <= k < r.tokens@.len() ==> same_entry(
                    self.stream.tokens@.filter(|e: Entry| not_space(e))[k],
                    #[trigger] r.tokens@[k],
                ),
    {
        self.stream.without_whitespace()
    }

    /// The interior, for a parse of its own.
    pub fn into_token_stream(self) -> (r: &'a TokenStream)
        ensures
            r == self.stream,
    {
        self.stream
    }
}

/// The entry at `pos` is a group with delimiter `d`.
pub open spec fn group_at(tokens: Seq<Entry>, pos: int, d: Delimiter) -> bool {
    0 <= pos < tokens.len() && tokens[pos] is Group && tokens[pos]->Group_delimiter == d
}

/// The entry at `pos` is an opening delimiter that the tokenizer found unclosed.
pub open spec fn unterminated_at(tokens: Seq<Entry>, pos: int) -> bool {
    0 <= pos < tokens.len() && tokens[pos] is Error && tokens[pos]->Error_0 is UnterminatedGroup
}

impl<'a> ParseStream<'a> {
    /// Consumes a group with delimiter `delimiter`, passing over whitespace
    /// before it.
    pub fn parse_group(&mut self, delimiter: Delimiter) -> (r: Result<Group<'a>, Error>)
        requires
            old(self).wf(),
        ensures
            final(self).wf(),
            old(self).pos <= old(self).at() <= old(self).tokens().len(),
            final(self).same_stream(*old(self)),
            final(self).errors == old(self).errors,
            r is Ok <==> group_at(old(self).tokens(), old(self).at(), delimiter),
            r is Ok ==> final(self).pos == old(self).at() + 1 && ({
                let e = old(self).tokens()[old(self).at()];
                &&& r->Ok_0.delimiter == delimiter
                &&& r->Ok_0.open == e->Group_open
                &&& r->Ok_0.close == e->Group_close
                &&& r->Ok_0.stream == &e->Group_inner
            }),
            r is Err ==> final(self).pos == old(self).pos && r->Err_0.wf(),
            r is Err && unterminated_at(old(self).tokens(), old(self).at()) ==> ({
                let k = old(self).tokens()[old(self).at()]->Error_0;
                &&& r->Err_0.errors@.len() == 1
                &&& r->Err_0.errors@[0].kind == ErrorKind::UnterminatedGroup {
                    start: k->UnterminatedGroup_start,
                    span: k->UnterminatedGroup_span,
                }
            }),
            r is Err && !unterminated_at(old(self).tokens(), old(self).at()) ==> fails_unexpected(
                r->Err_0,
                seq![seq![open_char(delimiter)]],
                span_at(old(self).tokens(), old(self).at()),
            ),
    {
        let start = self.pos;
        self.skip_whitespace();
        let n = self.stream.tokens.len();
        if self.pos < n {
            match &self.stream.tokens[self.pos] {
                Entry::Group { delimiter: d, open, close, inner } => {
                    if *d == delimiter {
                        self.pos = self.pos + 1;
                        return Ok(Group { delimiter, open: *open, close: *close, stream: inner });
                    }
                },
                Entry::Error(ErrorKind::UnterminatedGroup { start: open, span }) => {
                    self.pos = start;
                    return Err(self.error(ErrorKind::UnterminatedGroup { start: *open, span: *span }));
                },
                _ => {},
            }
        }
        let v = vec![delimiter.open()];
        assert(v@ =~= seq![open_char(delimiter)]);
        let expected = string_from_chars(&v);
        let span = self.error_span();
        self.pos = start;
        Err(unexpected_error(&self.source, expected, span))
    }
}

} // verus!
