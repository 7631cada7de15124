use vstd::prelude::*;

use crate::entry::Entry;
use crate::error::Error;
use crate::error::ErrorKind;
use crate::stream::composite_at;
use crate::stream::composite_display;
use crate::stream::fails_unexpected;
use crate::stream::punct_at;
use crate::stream::punct_display;
use crate::stream::span_at;
use crate::stream::ParseStream;
use crate::token::CompositeKind;
use crate::token::PunctKind;

verus! {

/// Probes for several alternatives at one position without consuming any,
/// and remembers each that did not match, so that a failure can name them all.
pub struct Lookahead<'a> {
    pub cursor: ParseStream<'a>,
    pub expected: Vec<String>,
}

impl<'a> Lookahead<'a> {
    /// The display texts of the alternatives that did not match, in the order tried.
    pub open spec fn expected_view(self) -> Seq<Seq<char>> {
        self.expected@.map_values(|s: String| s@)
    }

    fn note(&mut self, matched: bool, display: String)
        ensures
            final(self).cursor == old(self).cursor,
            matched ==> final(self).expected_view() == old(self).expected_view(),
            !matched ==> final(self).expected_view() == old(self).expected_view().push(display@),
    {
        if !matched {
            self.expected.push(display);
            assert(self.expected@.map_values(|s: String| s@) =~= old(self).expected@.map_values(
                |s: String| s@,
            ).push(display@));
        }
    }

    pub fn peek_punct(&mut self, kind: PunctKind) -> (r: bool)
        requires
            old(self).cursor.wf(),
        ensures
            final(self).cursor == old(self).cursor,
            r == punct_at(old(self).cursor.tokens(), old(self).cursor.at(), kind),
            r ==> final(self).expected_view() == old(self).expected_view(),
            !r ==> final(self).expected_view() == old(self).expected_view().push(
                punct_display(kind),
            ),
    {
        let r = self.cursor.peek_punct(kind);
        self.note(r, kind.display());
        r
    }

    pub fn peek_composite(&mut self, kind: CompositeKind) -> (r: bool)
        requires
            old(self).cursor.wf(),
        ensures
            final(self).cursor == old(self).cursor,
            r == composite_at(old(self).cursor.tokens(), old(self).cursor.at(), kind),
            r ==> final(self).expected_view() == old(self).expected_view(),
            !r ==> final(self).expected_view() == old(self).expected_view().push(
                composite_display(kind),
            ),
    {
        let r = self.cursor.peek_composite(kind);
        self.note(r, kind.display());
        r
    }

    pub fn peek_ident(&mut self) -> (r: bool)
        requires
            old(self).cursor.wf(),
        ensures
            final(self).cursor == old(self).cursor,
            r == (old(self).cursor.at() < old(self).cursor.tokens().len()
                && old(self).cursor.tokens()[old(self).cursor.at()] is Ident),
            r ==> final(self).expected_view() == old(self).expected_view(),
            !r ==> final(self).expected_view() == old(self).expected_view().push("identifier"@),
    {
        let n = self.cursor.stream.tokens.len();
        let p = self.cursor.token_pos();
        let r = p < n && matches!(self.cursor.stream.tokens[p], Entry::Ident(_));
        self.note(r, "identifier".to_string());
        r
    }

    pub fn peek_literal(&mut self) -> (r: bool)
        requires
            old(self).cursor.wf(),
        ensures
            final(self).cursor == old(self).cursor,
            r == (old(self).cursor.at() < old(self).cursor.tokens().len()
                && old(self).cursor.tokens()[old(self).cursor.at()] is Literal),
            r ==> final(self).expected_view() == old(self).expected_view(),
            !r ==> final(self).expected_view() == old(self).expected_view().push("literal"@),
    {
        let n = self.cursor.stream.tokens.len();
        let p = self.cursor.token_pos();
        let r = p < n && matches!(self.cursor.stream.tokens[p], Entry::Literal(_));
        self.note(r, "literal".to_string());
        r
    }

    /// An unexpected-token error at the probed position naming every
    /// alternative that did not match.
    pub fn error(self) -> (r: Error)
        requires
            self.cursor.wf(),
        ensures
            r.wf(),
            fails_unexpected(
                r,
                self.expected_view(),
                span_at(self.cursor.tokens(), self.cursor.at()),
            ),
    {
        let mut cursor = self.cursor;
        cursor.skip_whitespace();
        let span = cursor.error_span();
        cursor.error(ErrorKind::UnexpectedToken { expected: self.expected, span })
    }
}

impl<'a> ParseStream<'a> {
    /// A lookahead at the cursor's position.
    pub fn lookahead(&self) -> (r: Lookahead<'a>)
        requires
            self.wf(),
        ensures
            r.cursor.wf(),
            r.cursor.stream == self.stream,
            r.cursor.pos == self.pos,
            r.expected@.len() == 0,
    {
        Lookahead { cursor: self.fork(), expected: Vec::new() }
    }
}

} // verus!
