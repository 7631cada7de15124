use vstd::prelude::*;

use crate::entry::entry_span;
use crate::entry::Entry;
use crate::entry::Ident;
use crate::entry::Literal;
use crate::entry::SingleCharPunct;
use crate::entry::Spacing;
use crate::entry::TokenStream;
use crate::error::Error;
use crate::error::ErrorKind;
use crate::error::SingleError;
use crate::lexer::string_from_chars;
use crate::span::SourceFile;
use crate::span::Span;
use crate::token::composite_parts;
use crate::token::CompositeKind;
use crate::token::punct_char;
use crate::token::PunctKind;
use std::rc::Rc;

verus! {


/// A cursor over a token stream. Any number of cursors may read one stream;
/// each owns its position and the diagnostics recorded through it.
pub struct ParseStream<'a> {
    pub stream: &'a TokenStream,
    pub pos: usize,
    pub source: Rc<SourceFile>,
    pub errors: Vec<SingleError>,
}

/// The entry at `pos` is punctuation of kind `kind`.
pub open spec fn punct_at(tokens: Seq<Entry>, pos: int, kind: PunctKind) -> bool {
    0 <= pos < tokens.len() && tokens[pos] is Punct && tokens[pos]->Punct_0.kind == kind
}

/// The parts of composite `kind` stand at `pos` onwards, each but the last
/// with joint spacing, so that no whitespace separates them.
pub open spec fn composite_at(tokens: Seq<Entry>, pos: int, kind: CompositeKind) -> bool {
    let parts = composite_parts(kind);
    &&& pos + parts.len() <= tokens.len()
    &&& forall|k: int| 0 <= k < parts.len() ==> #[trigger] punct_at(tokens, pos + k, parts[k])
    &&& forall|k: int|
        0 <= k < parts.len() - 1 ==> (#[trigger] tokens[pos + k])->Punct_0.spacing
            == Spacing::Joint
}

/// The span used for an error at `pos`: the entry there, or the stream's end.
pub open spec fn span_at(tokens: Seq<Entry>, pos: int) -> Span {
    if 0 <= pos < tokens.len() {
        entry_span(tokens[pos])
    } else if tokens.len() > 0 {
        entry_span(tokens[tokens.len() - 1])
    } else {
        Span { start: 0, end: 0 }
    }
}

/// The display text of a punctuation kind.
pub open spec fn punct_display(k: PunctKind) -> Seq<char> {
    seq![punct_char(k)]
}

/// The display text of a composite: its parts' characters in order.
pub open spec fn composite_display(k: CompositeKind) -> Seq<char> {
    composite_parts(k).map_values(|p: PunctKind| punct_char(p))
}

/// `kind` is an unexpected-token error at `span` that names exactly `expected`.
pub open spec fn is_unexpected(kind: ErrorKind, expected: Seq<Seq<char>>, span: Span) -> bool {
    &&& kind is UnexpectedToken
    &&& kind->UnexpectedToken_expected@.map_values(|s: String| s@) == expected
    &&& kind->UnexpectedToken_span == span
}

/// A one-error failure whose error is an unexpected token.
pub open spec fn fails_unexpected(e: Error, expected: Seq<Seq<char>>, span: Span) -> bool {
    e.errors@.len() == 1 && is_unexpected(e.errors@[0].kind, expected, span)
}

impl PunctKind {
    pub fn display(self) -> (r: String)
        ensures
            r@ == punct_display(self),
    {
        let v = vec![self.to_char()];
        string_from_chars(&v)
    }
}

impl CompositeKind {
    pub fn display(self) -> (r: String)
        ensures
            r@ == composite_display(self),
    {
        let parts = self.parts();
        let mut v: Vec<char> = Vec::new();
        let mut k: usize = 0;
        while k < parts.len()
            invariant
                k <= parts@.len(),
                parts@ == composite_parts(self),
                v@ == parts@.subrange(0, k as int).map_values(|p: PunctKind| punct_char(p)),
            decreases parts@.len() - k,
        {
            v.push(parts[k].to_char());
            k = k + 1;
            assert(v@ =~= parts@.subrange(0, k as int).map_values(|p: PunctKind| punct_char(p)));
        }
        assert(parts@.subrange(0, k as int) =~= parts@);
        string_from_chars(&v)
    }
}

pub(crate) fn unexpected_error(source: &Rc<SourceFile>, expected: String, span: Span) -> (r: Error)
    ensures
        r.wf(),
        fails_unexpected(r, seq![expected@], span),
{
    let v = vec![expected];
    let r = Error::new(Rc::clone(source), ErrorKind::UnexpectedToken { expected: v, span });
    assert(r.errors@[0].kind->UnexpectedToken_expected@.map_values(|s: String| s@) =~= seq![expected@]);
    r
}

/// The first position from `pos` on that does not hold a whitespace run.
pub open spec fn skip_ws(tokens: Seq<Entry>, pos: int) -> int
    decreases tokens.len() - pos,
{
    if 0 <= pos < tokens.len() && tokens[pos] is WhiteSpace {
        skip_ws(tokens, pos + 1)
    } else {
        pos
    }
}

proof fn lemma_skip_ws_bounds(tokens: Seq<Entry>, pos: int)
    requires
        0 <= pos <= tokens.len(),
    ensures
        pos <= skip_ws(tokens, pos) <= tokens.len(),
    decreases tokens.len() - pos,
{
    if pos < tokens.len() && tokens[pos] is WhiteSpace {
        lemma_skip_ws_bounds(tokens, pos + 1);
    }
}

impl<'a> ParseStream<'a> {
    /// Where the next token stands: the cursor's position after any
    /// whitespace runs. Reading a token passes over them.
    pub open spec fn at(self) -> int {
        skip_ws(self.tokens(), self.pos as int)
    }

    /// The position of the next token, past any whitespace runs.
    pub fn token_pos(&self) -> (r: usize)
        requires
            self.wf(),
        ensures
            r == self.at(),
            self.pos <= r <= self.tokens().len(),
    {
        let n = self.stream.tokens.len();
        let mut p = self.pos;
        proof {
            lemma_skip_ws_bounds(self.tokens(), self.pos as int);
        }
        while p < n && matches!(self.stream.tokens[p], Entry::WhiteSpace { .. })
            invariant
                self.pos <= p <= n,
                n == self.tokens().len(),
                skip_ws(self.tokens(), p as int) == self.at(),
            decreases n - p,
        {
            p = p + 1;
        }
        p
    }

    /// Whether only whitespace is left before the end.
    pub fn is_exhausted(&self) -> (r: bool)
        requires
            self.wf(),
        ensures
            r == self.exhausted(),
    {
        let p = self.token_pos();
        p >= self.stream.tokens.len() || matches!(self.stream.tokens[p], Entry::End(_))
    }

    /// Passes over whitespace runs under the cursor.
    pub fn skip_whitespace(&mut self)
        requires
            old(self).wf(),
        ensures
            final(self).wf(),
            final(self).same_stream(*old(self)),
            final(self).errors == old(self).errors,
            final(self).pos == old(self).at(),
            old(self).pos <= old(self).at() <= old(self).tokens().len(),
    {
        self.pos = self.token_pos();
    }

    /// This cursor, moved to position `q`.
    pub open spec fn moved_to(self, q: int) -> ParseStream<'a> {
        ParseStream { stream: self.stream, pos: q as usize, source: self.source, errors: self.errors }
    }

    pub open spec fn tokens(self) -> Seq<Entry> {
        self.stream.tokens@
    }

    pub open spec fn wf(self) -> bool {
        self.pos <= self.tokens().len()
    }

    /// Both cursors read the same stream of the same source.
    pub open spec fn same_stream(self, other: ParseStream<'a>) -> bool {
        self.stream == other.stream && self.source == other.source
    }

    /// Only whitespace is left before the end.
    pub open spec fn exhausted(self) -> bool {
        self.at() >= self.tokens().len() || self.tokens()[self.at()] is End
    }

    /// The cursor stands at the end: on the final `End`, or past every entry.
    pub open spec fn at_end(self) -> bool {
        self.pos >= self.tokens().len() || self.tokens()[self.pos as int] is End
    }

    pub fn new(stream: &'a TokenStream, source: Rc<SourceFile>) -> (r: ParseStream<'a>)
        ensures
            r.wf(),
            r.pos == 0,
            r.stream == stream,
            r.source == source,
            r.errors@.len() == 0,
    {
        ParseStream { stream, pos: 0, source, errors: Vec::new() }
    }

    /// A second cursor at the same position, with no diagnostics of its own.
    pub fn fork(&self) -> (r: ParseStream<'a>)
        ensures
            r.stream == self.stream,
            r.pos == self.pos,
            r.errors@.len() == 0,
    {
        ParseStream { stream: self.stream, pos: self.pos, source: Rc::clone(&self.source), errors: Vec::new() }
    }

    pub fn position(&self) -> (r: usize)
        ensures
            r == self.pos,
    {
        self.pos
    }

    pub fn error_span(&self) -> (r: Span)
        ensures
            r == span_at(self.tokens(), self.pos as int),
    {
        let n = self.stream.tokens.len();
        if self.pos < n {
            self.stream.tokens[self.pos].span()
        } else if n > 0 {
            self.stream.tokens[n - 1].span()
        } else {
            Span { start: 0, end: 0 }
        }
    }

    /// An error of kind `kind` from this cursor's source.
    pub fn error(&self, kind: ErrorKind) -> (r: Error)
        ensures
            r.wf(),
            r.errors@.len() == 1,
            r.errors@[0].kind == kind,
    {
        Error::new(Rc::clone(&self.source), kind)
    }

    pub(crate) fn end_of_file(&self) -> (r: Error)
        ensures
            r.wf(),
            r.errors@.len() == 1,
            r.errors@[0].kind == ErrorKind::EndOfFile(span_at(self.tokens(), self.pos as int)),
    {
        let span = self.error_span();
        self.error(ErrorKind::EndOfFile(span))
    }

    pub fn is_empty(&self) -> (r: bool)
        ensures
            r == self.at_end(),
    {
        self.pos >= self.stream.tokens.len() || matches!(self.stream.tokens[self.pos], Entry::End(_))
    }

    /// The entry under the cursor.
    pub fn current(&self) -> (r: Result<&'a Entry, Error>)
        ensures
            self.pos < self.tokens().len() <==> r is Ok,
            r is Ok ==> *r->Ok_0 == self.tokens()[self.pos as int],
            r is Err ==> r->Err_0.wf() && r->Err_0.errors@[0].kind == ErrorKind::EndOfFile(
                span_at(self.tokens(), self.pos as int),
            ),
    {
        if self.pos < self.stream.tokens.len() {
            Ok(&self.stream.tokens[self.pos])
        } else {
            Err(self.end_of_file())
        }
    }

    /// The entry `offset` places from the cursor; negative offsets look back.
    pub fn get(&self, offset: isize) -> (r: Result<&'a Entry, Error>)
        ensures
            (0 <= self.pos + offset < self.tokens().len()) <==> r is Ok,
            r is Ok ==> *r->Ok_0 == self.tokens()[self.pos + offset],
            r is Err ==> r->Err_0.wf(),
    {
        let n = self.stream.tokens.len();
        let idx: i128 = self.pos as i128 + offset as i128;
        if idx < 0 || idx >= n as i128 {
            return Err(self.end_of_file());
        }
        Ok(&self.stream.tokens[idx as usize])
    }

    /// Consumes the entry under the cursor and returns it. The final `End`
    /// is never consumed.
    pub fn next(&mut self) -> (r: Result<&'a Entry, Error>)
        requires
            old(self).wf(),
        ensures
            final(self).wf(),
            final(self).same_stream(*old(self)),
            final(self).errors == old(self).errors,
            r is Ok <==> !old(self).at_end(),
            r is Ok ==> *r->Ok_0 == old(self).tokens()[old(self).pos as int] && final(self).pos
                == old(self).pos + 1,
            r is Err ==> final(self).pos == old(self).pos && r->Err_0.wf(),
    {
        let n = self.stream.tokens.len();
        if self.pos >= n || matches!(self.stream.tokens[self.pos], Entry::End(_)) {
            return Err(self.end_of_file());
        }
        let e = &self.stream.tokens[self.pos];
        self.pos = self.pos + 1;
        Ok(e)
    }

    /// Records a problem without changing the course of the parse.
    pub fn add_error(&mut self, error: Error)
        ensures
            final(self).stream == old(self).stream,
            final(self).source == old(self).source,
            final(self).pos == old(self).pos,
            final(self).errors@ == old(self).errors@ + error.errors@,
    {
        let mut more = error.errors;
        self.errors.append(&mut more);
    }

    /// The diagnostics recorded so far.
    pub fn pending_errors(&self) -> (r: &Vec<SingleError>)
        ensures
            r@ == self.errors@,
    {
        &self.errors
    }
}


impl<'a> ParseStream<'a> {
    /// Whether punctuation of kind `kind` is the next token, past any whitespace.
    pub fn peek_punct(&self, kind: PunctKind) -> (r: bool)
        requires
            self.wf(),
        ensures
            r == punct_at(self.tokens(), self.at(), kind),
    {
        let p = self.token_pos();
        if p < self.stream.tokens.len() {
            match &self.stream.tokens[p] {
                Entry::Punct(p) => p.kind == kind,
                _ => false,
            }
        } else {
            false
        }
    }

    /// Consumes punctuation of kind `kind`, passing over whitespace before it;
    /// on failure the cursor stays.
    pub fn parse_punct(&mut self, kind: PunctKind) -> (r: Result<SingleCharPunct, Error>)
        requires
            old(self).wf(),
        ensures
            final(self).wf(),
            old(self).pos <= old(self).at() <= old(self).tokens().len(),
            final(self).same_stream(*old(self)),
            final(self).errors == old(self).errors,
            r is Ok <==> punct_at(old(self).tokens(), old(self).at(), kind),
            r is Ok ==> Entry::Punct(r->Ok_0) == old(self).tokens()[old(self).at()]
                && final(self).pos == old(self).at() + 1,
            r is Err ==> final(self).pos == old(self).pos && fails_unexpected(
                r->Err_0,
                seq![punct_display(kind)],
                span_at(old(self).tokens(), old(self).at()),
            ),
    {
        let start = self.pos;
        self.skip_whitespace();
        let n = self.stream.tokens.len();
        if self.pos < n {
            if let Entry::Punct(p) = &self.stream.tokens[self.pos] {
                if p.kind == kind {
                    self.pos = self.pos + 1;
                    return Ok(*p);
                }
            }
        }
        let span = self.error_span();
        self.pos = start;
        Err(unexpected_error(&self.source, kind.display(), span))
    }

    /// Whether the composite `kind` is next, past any whitespace.
    pub fn peek_composite(&self, kind: CompositeKind) -> (r: bool)
        requires
            self.wf(),
        ensures
            r == composite_at(self.tokens(), self.at(), kind),
    {
        let p = self.token_pos();
        let parts = kind.parts();
        let n = self.stream.tokens.len();
        if p > n || parts.len() > n - p {
            return false;
        }
        let mut k: usize = 0;
        while k < parts.len()
            invariant
                parts@ == composite_parts(kind),
                p + parts@.len() <= n,
                p == self.at(),
                n == self.tokens().len(),
                k <= parts@.len(),
                forall|m: int| 0 <= m < k ==> #[trigger] punct_at(self.tokens(), p + m, parts@[m]),
                forall|m: int| 0 <= m < k && m < parts@.len() - 1
                    ==> (#[trigger] self.tokens()[p + m])->Punct_0.spacing == Spacing::Joint,
            decreases parts@.len() - k,
        {
            match &self.stream.tokens[p + k] {
                Entry::Punct(q) => {
                    if q.kind != parts[k] {
                        assert(!punct_at(self.tokens(), p + k, parts@[k as int]));
                        return false;
                    }
                    if k + 1 < parts.len() && q.spacing != Spacing::Joint {
                        assert(self.tokens()[p + k]->Punct_0.spacing != Spacing::Joint);
                        return false;
                    }
                },
                _ => {
                    assert(!punct_at(self.tokens(), p + k, parts@[k as int]));
                    return false;
                },
            }
            k = k + 1;
        }
        true
    }

    /// Consumes the parts of composite `kind`, after any whitespace; the parts
    /// must stand side by side,
    /// and returns the span from the first to the last. On failure the cursor
    /// stays and the error names the composite.
    pub fn parse_composite(&mut self, kind: CompositeKind) -> (r: Result<Span, Error>)
        requires
            old(self).wf(),
        ensures
            final(self).wf(),
            old(self).pos <= old(self).at() <= old(self).tokens().len(),
            final(self).same_stream(*old(self)),
            final(self).errors == old(self).errors,
            r is Ok <==> composite_at(old(self).tokens(), old(self).at(), kind),
            r is Ok ==> final(self).pos == old(self).at() + composite_parts(kind).len() && r->Ok_0
                == (Span {
                start: entry_span(old(self).tokens()[old(self).at()]).start,
                end: entry_span(
                    old(self).tokens()[old(self).at() + composite_parts(kind).len() - 1],
                ).end,
            }),
            r is Err ==> final(self).pos == old(self).pos && fails_unexpected(
                r->Err_0,
                seq![composite_display(kind)],
                span_at(old(self).tokens(), old(self).at()),
            ),
    {
        if !self.peek_composite(kind) {
            let start = self.pos;
            self.skip_whitespace();
            let span = self.error_span();
            self.pos = start;
            return Err(unexpected_error(&self.source, kind.display(), span));
        }
        self.skip_whitespace();
        let ghost parts = composite_parts(kind);
        let len = kind.parts().len();
        assert(len >= 2);
        let n = self.stream.tokens.len();
        assert(self.pos + len <= n);
        let first = self.stream.tokens[self.pos].span();
        let last = self.stream.tokens[self.pos + len - 1].span();
        self.pos = self.pos + len;
        Ok(Span { start: first.start, end: last.end })
    }

    /// Consumes an identifier, passing over whitespace before it.
    pub fn parse_ident(&mut self) -> (r: Result<&'a Ident, Error>)
        requires
            old(self).wf(),
        ensures
            final(self).wf(),
            old(self).pos <= old(self).at() <= old(self).tokens().len(),
            final(self).same_stream(*old(self)),
            final(self).errors == old(self).errors,
            r is Ok <==> (old(self).at() < old(self).tokens().len()
                && old(self).tokens()[old(self).at()] is Ident),
            r is Ok ==> Entry::Ident(*r->Ok_0) == old(self).tokens()[old(self).at()]
                && final(self).pos == old(self).at() + 1,
            r is Err ==> final(self).pos == old(self).pos && r->Err_0.wf(),
    {
        let start = self.pos;
        self.skip_whitespace();
        let n = self.stream.tokens.len();
        if self.pos < n {
            if let Entry::Ident(i) = &self.stream.tokens[self.pos] {
                self.pos = self.pos + 1;
                return Ok(i);
            }
        }
        let expected = string_from_chars(&vec!['i', 'd', 'e', 'n', 't', 'i', 'f', 'i', 'e', 'r']);
        let span = self.error_span();
        self.pos = start;
        Err(unexpected_error(&self.source, expected, span))
    }

    /// Consumes a literal, passing over whitespace before it.
    pub fn parse_literal(&mut self) -> (r: Result<&'a Literal, Error>)
        requires
            old(self).wf(),
        ensures
            final(self).wf(),
            old(self).pos <= old(self).at() <= old(self).tokens().len(),
            final(self).same_stream(*old(self)),
            final(self).errors == old(self).errors,
            r is Ok <==> (old(self).at() < old(self).tokens().len()
                && old(self).tokens()[old(self).at()] is Literal),
            r is Ok ==> Entry::Literal(*r->Ok_0) == old(self).tokens()[old(self).at()]
                && final(self).pos == old(self).at() + 1,
            r is Err ==> final(self).pos == old(self).pos && r->Err_0.wf(),
    {
        let start = self.pos;
        self.skip_whitespace();
        let n = self.stream.tokens.len();
        if self.pos < n {
            if let Entry::Literal(l) = &self.stream.tokens[self.pos] {
                self.pos = self.pos + 1;
                return Ok(l);
            }
        }
        let expected = string_from_chars(&vec!['l', 'i', 't', 'e', 'r', 'a', 'l']);
        let span = self.error_span();
        self.pos = start;
        Err(unexpected_error(&self.source, expected, span))
    }
}


/// The entry at `pos` is a whitespace run of exactly `count` spaces.
pub open spec fn spaces_at(tokens: Seq<Entry>, pos: int, count: nat) -> bool {
    &&& 0 <= pos < tokens.len()
    &&& tokens[pos] is WhiteSpace
    &&& tokens[pos]->WhiteSpace_text@ == Seq::new(count, |i: int| ' ')
}

fn all_spaces(chars: &Vec<char>) -> (r: bool)
    ensures
        r == (chars@ == Seq::new(chars@.len(), |i: int| ' ')),
{
    let mut k: usize = 0;
    while k < chars.len()
        invariant
            k <= chars@.len(),
            forall|m: int| 0 <= m < k ==> chars@[m] == ' ',
        decreases chars@.len() - k,
    {
        if chars[k] != ' ' {
            assert(chars@[k as int] != Seq::new(chars@.len(), |i: int| ' ')[k as int]);
            return false;
        }
        k = k + 1;
    }
    assert(chars@ =~= Seq::new(chars@.len(), |i: int| ' '));
    true
}

impl<'a> ParseStream<'a> {
    /// Consumes a whitespace run of exactly `count` spaces.
    pub fn parse_spaces(&mut self, count: usize) -> (r: Result<Span, Error>)
        requires
            old(self).wf(),
        ensures
            final(self).wf(),
            final(self).same_stream(*old(self)),
            final(self).errors == old(self).errors,
            r is Ok <==> spaces_at(old(self).tokens(), old(self).pos as int, count as nat),
            r is Ok ==> final(self).pos == old(self).pos + 1 && r->Ok_0 == entry_span(
                old(self).tokens()[old(self).pos as int],
            ),
            r is Err ==> final(self).pos == old(self).pos && r->Err_0.wf(),
    {
        let n = self.stream.tokens.len();
        if self.pos < n {
            if let Entry::WhiteSpace { text, span } = &self.stream.tokens[self.pos] {
                let chars = crate::lexer::chars_of(text.as_str());
                if chars.len() == count && all_spaces(&chars) {
                    self.pos = self.pos + 1;
                    return Ok(*span);
                }
            }
        }
        let expected = string_from_chars(&vec![' '; count]);
        Err(unexpected_error(&self.source, expected, self.error_span()))
    }
}


/// Punctuation `first` stands at `pos`, joint, and `second` right after it.
pub open spec fn joint_at(tokens: Seq<Entry>, pos: int, first: PunctKind, second: PunctKind) -> bool {
    &&& punct_at(tokens, pos, first)
    &&& tokens[pos]->Punct_0.spacing == Spacing::Joint
    &&& punct_at(tokens, pos + 1, second)
    &&& tokens[pos]->Punct_0.span.end == tokens[pos + 1]->Punct_0.span.start
}

impl<'a> ParseStream<'a> {
    /// Consumes the pair `first` `second` with nothing between them: any two
    /// punctuation characters read as one token. On failure the cursor stays
    /// and the error names the pair.
    pub fn parse_joint(&mut self, first: PunctKind, second: PunctKind) -> (r: Result<
        (SingleCharPunct, SingleCharPunct),
        Error,
    >)
        requires
            old(self).wf(),
        ensures
            final(self).wf(),
            old(self).pos <= old(self).at() <= old(self).tokens().len(),
            final(self).same_stream(*old(self)),
            final(self).errors == old(self).errors,
            r is Ok <==> joint_at(old(self).tokens(), old(self).at(), first, second),
            r is Ok ==> final(self).pos == old(self).at() + 2
                && Entry::Punct(r->Ok_0.0) == old(self).tokens()[old(self).at()]
                && Entry::Punct(r->Ok_0.1) == old(self).tokens()[old(self).at() + 1],
            r is Err ==> final(self).pos == old(self).pos && fails_unexpected(
                r->Err_0,
                seq![punct_display(first) + punct_display(second)],
                span_at(old(self).tokens(), old(self).at()),
            ),
    {
        let start = self.pos;
        let span_pos = self.token_pos();
        let mut probe = self.fork();
        probe.pos = span_pos;
        let span = probe.error_span();
        if let Ok(a) = self.parse_punct(first) {
            let n = self.stream.tokens.len();
            if a.spacing == Spacing::Joint && self.pos < n && matches!(self.stream.tokens[self.pos], Entry::Punct(_)) {
                if let Ok(b) = self.parse_punct(second) {
                    if a.span.end == b.span.start {
                        return Ok((a, b));
                    }
                }
            }
        }
        self.pos = start;
        let v = vec![first.to_char(), second.to_char()];
        assert(v@ =~= punct_display(first) + punct_display(second));
        Err(unexpected_error(&self.source, string_from_chars(&v), span))
    }
}

} // verus!
