use vstd::prelude::*;

use crate::span::SourceFile;
use crate::span::Span;
use std::rc::Rc;

verus! {

/// What went wrong, and where.
#[derive(Clone, Debug)]
pub enum ErrorKind {
    /// A speculative attempt failed; never shown to a user.
    Silent,
    /// A problem raised by a grammar.
    Custom { message: String, span: Span },
    /// A character that starts no token.
    UnknownCharacter(Span),
    /// An opening delimiter at `start` that is never closed; `span` is the end of input.
    UnterminatedGroup { start: Span, span: Span },
    /// A character literal with no closing quote.
    UnterminatedChar(Span),
    /// A character literal that does not hold exactly one character.
    LongChar(Span),
    /// A string literal with no closing quote.
    UnterminatedString(Span),
    /// A token other than one of `expected` stood at `span`.
    UnexpectedToken { expected: Vec<String>, span: Span },
    /// The input ended where a token was needed.
    EndOfFile(Span),
}

impl ErrorKind {
    pub open spec fn is_silent(self) -> bool {
        self is Silent
    }

    pub open spec fn code_spec(self) -> u32 {
        match self {
            ErrorKind::Silent => 1,
            ErrorKind::Custom { .. } => 2,
            ErrorKind::UnknownCharacter(_) => 3,
            ErrorKind::UnterminatedGroup { .. } => 4,
            ErrorKind::UnterminatedChar(_) => 5,
            ErrorKind::LongChar(_) => 6,
            ErrorKind::UnterminatedString(_) => 7,
            ErrorKind::UnexpectedToken { .. } => 8,
            ErrorKind::EndOfFile(_) => 9,
        }
    }

    /// A short stable code for each kind of error.
    pub fn code(&self) -> (r: u32)
        ensures
            r == self.code_spec(),
    {
        match self {
            ErrorKind::Silent => 1,
            ErrorKind::Custom { .. } => 2,
            ErrorKind::UnknownCharacter(_) => 3,
            ErrorKind::UnterminatedGroup { .. } => 4,
            ErrorKind::UnterminatedChar(_) => 5,
            ErrorKind::LongChar(_) => 6,
            ErrorKind::UnterminatedString(_) => 7,
            ErrorKind::UnexpectedToken { .. } => 8,
            ErrorKind::EndOfFile(_) => 9,
        }
    }
}

/// One diagnosed failure in one source.
#[derive(Clone, Debug)]
pub struct SingleError {
    pub source: Rc<SourceFile>,
    pub kind: ErrorKind,
}

/// A non-empty ordered collection of failures.
#[derive(Clone, Debug)]
pub struct Error {
    pub errors: Vec<SingleError>,
}

impl Error {
    pub open spec fn wf(self) -> bool {
        self.errors@.len() > 0
    }

    pub fn new(source: Rc<SourceFile>, kind: ErrorKind) -> (r: Error)
        ensures
            r.wf(),
            r.errors@ == seq![SingleError { source, kind }],
    {
        Error { errors: vec![SingleError { source, kind }] }
    }

    /// A failure of a speculative attempt, not meant to be reported.
    pub fn silent(source: Rc<SourceFile>) -> (r: Error)
        ensures
            r.wf(),
            r.errors@.len() == 1,
            r.errors@[0].kind is Silent,
    {
        Error::new(source, ErrorKind::Silent)
    }

    /// All failures of `self` followed by all of `other`.
    pub fn with(self, other: Error) -> (r: Error)
        ensures
            r.errors@ == self.errors@ + other.errors@,
            self.wf() || other.wf() ==> r.wf(),
    {
        let mut errors = self.errors;
        let mut rest = other.errors;
        errors.append(&mut rest);
        Error { errors }
    }

    /// How many failures are held.
    pub fn len(&self) -> (r: usize)
        ensures
            r == self.errors@.len(),
    {
        self.errors.len()
    }

    pub fn is_silent(&self) -> (r: bool)
        ensures
            r == (forall|i: int| 0 <= i < self.errors@.len() ==> #[trigger] self.errors@[i].kind is Silent),
    {
        let mut i: usize = 0;
        while i < self.errors.len()
            invariant
                i <= self.errors@.len(),
                forall|j: int| 0 <= j < i ==> #[trigger] self.errors@[j].kind is Silent,
            decreases self.errors@.len() - i,
        {
            if !matches!(self.errors[i].kind, ErrorKind::Silent) {
                return false;
            }
            i = i + 1;
        }
        true
    }
}

} // verus!
