use vstd::prelude::*;

use crate::error::ErrorKind;
use crate::span::Span;
use crate::token::punct_char;
use crate::token::PunctKind;

verus! {

/// An identifier.
#[derive(Clone, Debug)]
pub struct Ident {
    pub string: String,
    pub span: Span,
}

impl Ident {
    pub fn string(&self) -> (r: &String)
        ensures
            r@ == self.string@,
    {
        &self.string
    }

    pub fn span(&self) -> (r: Span)
        ensures
            r == self.span,
    {
        self.span
    }
}

/// Whether the next character is punctuation that stands right beside this one.
#[derive(Clone, Copy, Debug, PartialEq, Eq, Structural)]
pub enum Spacing {
    Alone,
    Joint,
}

/// One punctuation character.
#[derive(Clone, Copy, Debug)]
pub struct SingleCharPunct {
    pub kind: PunctKind,
    pub spacing: Spacing,
    pub span: Span,
}

/// The value of a literal. A float keeps its digits as written.
#[derive(Clone, Debug)]
pub enum LiteralValue {
    Int(i64),
    Float(String),
    String(String),
    Char(char),
}

/// A literal, with the text it was written as.
#[derive(Clone, Debug)]
pub struct Literal {
    pub value: LiteralValue,
    pub text: String,
    pub span: Span,
}

/// The bracket pair around a group.
#[derive(Clone, Copy, Debug, PartialEq, Eq, Structural)]
pub enum Delimiter {
    Parenthesis,
    Brace,
    Bracket,
}

pub open spec fn open_char(d: Delimiter) -> char {
    match d {
        Delimiter::Parenthesis => '(',
        Delimiter::Brace => '{',
        Delimiter::Bracket => '[',
    }
}

pub open spec fn close_char(d: Delimiter) -> char {
    match d {
        Delimiter::Parenthesis => ')',
        Delimiter::Brace => '}',
        Delimiter::Bracket => ']',
    }
}

impl Delimiter {
    pub fn open(self) -> (r: char)
        ensures
            r == open_char(self),
    {
        match self {
            Delimiter::Parenthesis => '(',
            Delimiter::Brace => '{',
            Delimiter::Bracket => '[',
        }
    }

    pub fn close(self) -> (r: char)
        ensures
            r == close_char(self),
    {
        match self {
            Delimiter::Parenthesis => ')',
            Delimiter::Brace => '}',
            Delimiter::Bracket => ']',
        }
    }
}

/// One lexical item of a token stream.
#[derive(Debug)]
pub enum Entry {
    Ident(Ident),
    Punct(SingleCharPunct),
    Literal(Literal),
    WhiteSpace { text: String, span: Span },
    Group { delimiter: Delimiter, open: Span, close: Span, inner: TokenStream },
    /// A region the tokenizer could not read, kept so that positions stay aligned.
    Error(ErrorKind),
    /// The last entry of every stream; its span is the end of the input.
    End(Span),
}

/// A sequence of entries that ends with one `End`.
#[derive(Debug)]
pub struct TokenStream {
    pub tokens: Vec<Entry>,
}

/// The text an entry stands for. Errors and the end stand for no text.
pub open spec fn entry_text(e: Entry) -> Seq<char>
    decreases e,
{
    match e {
        Entry::Ident(i) => i.string@,
        Entry::Punct(p) => seq![punct_char(p.kind)],
        Entry::Literal(l) => l.text@,
        Entry::WhiteSpace { text, .. } => text@,
        Entry::Group { delimiter, inner, .. } => seq![open_char(delimiter)] + entries_text(
            inner.tokens@,
        ) + seq![close_char(delimiter)],
        Entry::Error(_) => Seq::empty(),
        Entry::End(_) => Seq::empty(),
    }
}

/// The text of a sequence of entries, one after another.
pub open spec fn entries_text(s: Seq<Entry>) -> Seq<char>
    decreases s,
{
    if s.len() == 0 {
        Seq::empty()
    } else {
        entries_text(s.subrange(0, s.len() - 1)) + entry_text(s[s.len() - 1])
    }
}

/// An entry holds no tokenizer error, at any depth.
pub open spec fn entry_ok(e: Entry) -> bool
    decreases e,
{
    match e {
        Entry::Group { inner, .. } => entries_ok(inner.tokens@),
        Entry::Error(_) => false,
        _ => true,
    }
}

pub open spec fn entries_ok(s: Seq<Entry>) -> bool
    decreases s,
{
    if s.len() == 0 {
        true
    } else {
        entries_ok(s.subrange(0, s.len() - 1)) && entry_ok(s[s.len() - 1])
    }
}

/// A stream ends with exactly one `End`.
pub open spec fn entries_wf(s: Seq<Entry>) -> bool {
    &&& s.len() > 0
    &&& s[s.len() - 1] is End
    &&& forall|i: int| 0 <= i < s.len() - 1 ==> !(#[trigger] s[i] is End)
}

pub proof fn lemma_entries_push(s: Seq<Entry>, e: Entry)
    ensures
        entries_text(s.push(e)) == entries_text(s) + entry_text(e),
        entries_ok(s.push(e)) == (entries_ok(s) && entry_ok(e)),
{
    assert(s.push(e).subrange(0, s.len() as int) =~= s);
}


/// The span that an error kind points at; a silent error points nowhere.
pub open spec fn error_span(k: ErrorKind) -> Span {
    match k {
        ErrorKind::Silent => Span { start: 0, end: 0 },
        ErrorKind::Custom { span, .. } => span,
        ErrorKind::UnknownCharacter(span) => span,
        ErrorKind::UnterminatedGroup { span, .. } => span,
        ErrorKind::UnterminatedChar(span) => span,
        ErrorKind::LongChar(span) => span,
        ErrorKind::UnterminatedString(span) => span,
        ErrorKind::UnexpectedToken { span, .. } => span,
        ErrorKind::EndOfFile(span) => span,
    }
}

/// The span an entry covers; a group covers both of its delimiters.
pub open spec fn entry_span(e: Entry) -> Span {
    match e {
        Entry::Ident(i) => i.span,
        Entry::Punct(p) => p.span,
        Entry::Literal(l) => l.span,
        Entry::WhiteSpace { span, .. } => span,
        Entry::Group { open, close, .. } => Span { start: open.start, end: close.end },
        Entry::Error(k) => error_span(k),
        Entry::End(span) => span,
    }
}

impl ErrorKind {
    pub fn span(&self) -> (r: Span)
        ensures
            r == error_span(*self),
    {
        match self {
            ErrorKind::Silent => Span { start: 0, end: 0 },
            ErrorKind::Custom { span, .. } => *span,
            ErrorKind::UnknownCharacter(span) => *span,
            ErrorKind::UnterminatedGroup { span, .. } => *span,
            ErrorKind::UnterminatedChar(span) => *span,
            ErrorKind::LongChar(span) => *span,
            ErrorKind::UnterminatedString(span) => *span,
            ErrorKind::UnexpectedToken { span, .. } => *span,
            ErrorKind::EndOfFile(span) => *span,
        }
    }
}

impl Entry {
    pub fn span(&self) -> (r: Span)
        ensures
            r == entry_span(*self),
    {
        match self {
            Entry::Ident(i) => i.span,
            Entry::Punct(p) => p.span,
            Entry::Literal(l) => l.span,
            Entry::WhiteSpace { span, .. } => *span,
            Entry::Group { open, close, .. } => Span { start: open.start, end: close.end },
            Entry::Error(k) => k.span(),
            Entry::End(span) => *span,
        }
    }
}


/// Identifiers are equal when their text is; where they stand does not matter.
impl PartialEq for Ident {
    fn eq(&self, other: &Ident) -> (r: bool) {
        self.string == other.string
    }
}

impl vstd::std_specs::cmp::PartialEqSpecImpl for Ident {
    open spec fn obeys_eq_spec() -> bool {
        true
    }

    open spec fn eq_spec(&self, other: &Ident) -> bool {
        self.string@ == other.string@
    }
}

/// Punctuation is equal when kind and spacing are; the span does not matter.
impl PartialEq for SingleCharPunct {
    fn eq(&self, other: &SingleCharPunct) -> (r: bool) {
        self.kind == other.kind && self.spacing == other.spacing
    }
}

impl vstd::std_specs::cmp::PartialEqSpecImpl for SingleCharPunct {
    open spec fn obeys_eq_spec() -> bool {
        true
    }

    open spec fn eq_spec(&self, other: &SingleCharPunct) -> bool {
        self.kind == other.kind && self.spacing == other.spacing
    }
}

/// The same kind of value with the same contents.
pub open spec fn same_value(a: LiteralValue, b: LiteralValue) -> bool {
    match (a, b) {
        (LiteralValue::Int(x), LiteralValue::Int(y)) => x == y,
        (LiteralValue::Float(x), LiteralValue::Float(y)) => x@ == y@,
        (LiteralValue::String(x), LiteralValue::String(y)) => x@ == y@,
        (LiteralValue::Char(x), LiteralValue::Char(y)) => x == y,
        _ => false,
    }
}

impl PartialEq for LiteralValue {
    fn eq(&self, other: &LiteralValue) -> (r: bool) {
        match (self, other) {
            (LiteralValue::Int(x), LiteralValue::Int(y)) => *x == *y,
            (LiteralValue::Float(x), LiteralValue::Float(y)) => *x == *y,
            (LiteralValue::String(x), LiteralValue::String(y)) => *x == *y,
            (LiteralValue::Char(x), LiteralValue::Char(y)) => *x == *y,
            _ => false,
        }
    }
}

impl vstd::std_specs::cmp::PartialEqSpecImpl for LiteralValue {
    open spec fn obeys_eq_spec() -> bool {
        true
    }

    open spec fn eq_spec(&self, other: &LiteralValue) -> bool {
        same_value(*self, *other)
    }
}

/// Literals are equal when their values are; the text and span do not matter.
impl PartialEq for Literal {
    fn eq(&self, other: &Literal) -> (r: bool) {
        self.value == other.value
    }
}

impl vstd::std_specs::cmp::PartialEqSpecImpl for Literal {
    open spec fn obeys_eq_spec() -> bool {
        true
    }

    open spec fn eq_spec(&self, other: &Literal) -> bool {
        same_value(self.value, other.value)
    }
}

} // verus!
