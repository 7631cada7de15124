use vstd::prelude::*;

use crate::entry::Entry;
use crate::entry::TokenStream;
use crate::error::Error;
use crate::error::ErrorKind;
use crate::error::SingleError;
use crate::entry::entries_ok;
use crate::entry::entries_text;
use crate::entry::entries_wf;
use crate::lexer::kinds_ok;
use crate::lexer::tiles;
use crate::lexer::tokenize;
use crate::parse::Parse;
use crate::span::SourceFile;
use crate::stream::span_at;
use crate::stream::ParseStream;
use std::rc::Rc;

verus! {

/// The entries of `tokens` that the tokenizer could not read, in order.
pub open spec fn error_entries(tokens: Seq<Entry>) -> Seq<Entry> {
    tokens.filter(|e: Entry| e is Error)
}

/// `b` holds what `a` does: the same kind with the same spans and texts.
pub open spec fn same_kind(a: ErrorKind, b: ErrorKind) -> bool {
    match a {
        ErrorKind::Custom { message, span } => b is Custom && b->Custom_message@ == message@
            && b->Custom_span == span,
        ErrorKind::UnexpectedToken { expected, span } => b is UnexpectedToken
            && b->UnexpectedToken_expected@.map_values(|s: String| s@) == expected@.map_values(
            |s: String| s@,
        ) && b->UnexpectedToken_span == span,
        _ => b == a,
    }
}

/// `errors` carries one error for each entry of `entries`, of the same kind.
pub open spec fn errors_for(errors: Seq<SingleError>, entries: Seq<Entry>) -> bool {
    &&& errors.len() == entries.len()
    &&& forall|j: int| 0 <= j < errors.len() ==> same_kind(entries[j]->Error_0, #[trigger] errors[j].kind)
}

fn copy_strings(v: &Vec<String>) -> (r: Vec<String>)
    ensures
        r@.map_values(|s: String| s@) == v@.map_values(|s: String| s@),
{
    let mut r: Vec<String> = Vec::new();
    let mut k: usize = 0;
    while k < v.len()
        invariant
            k <= v@.len(),
            r@.len() == k,
            forall|i: int| 0 <= i < k ==> (#[trigger] r@[i])@ == v@[i]@,
        decreases v@.len() - k,
    {
        r.push(v[k].clone());
        k = k + 1;
    }
    assert(r@.map_values(|s: String| s@) =~= v@.map_values(|s: String| s@));
    r
}

impl ErrorKind {
    /// A copy of this kind, field by field.
    pub fn copy(&self) -> (r: ErrorKind)
        ensures
            r is Silent <==> *self is Silent,
            !(*self is UnexpectedToken) && !(*self is Custom) ==> r == *self,
            *self is Custom ==> r is Custom && r->Custom_message@ == self->Custom_message@
                && r->Custom_span == self->Custom_span,
            *self is UnexpectedToken ==> r is UnexpectedToken
                && r->UnexpectedToken_expected@.map_values(|s: String| s@)
                == self->UnexpectedToken_expected@.map_values(|s: String| s@)
                && r->UnexpectedToken_span == self->UnexpectedToken_span,
    {
        match self {
            ErrorKind::Silent => ErrorKind::Silent,
            ErrorKind::Custom { message, span } => ErrorKind::Custom {
                message: message.clone(),
                span: *span,
            },
            ErrorKind::UnknownCharacter(s) => ErrorKind::UnknownCharacter(*s),
            ErrorKind::UnterminatedGroup { start, span } => ErrorKind::UnterminatedGroup {
                start: *start,
                span: *span,
            },
            ErrorKind::UnterminatedChar(s) => ErrorKind::UnterminatedChar(*s),
            ErrorKind::LongChar(s) => ErrorKind::LongChar(*s),
            ErrorKind::UnterminatedString(s) => ErrorKind::UnterminatedString(*s),
            ErrorKind::UnexpectedToken { expected, span } => ErrorKind::UnexpectedToken {
                expected: copy_strings(expected),
                span: *span,
            },
            ErrorKind::EndOfFile(s) => ErrorKind::EndOfFile(*s),
        }
    }
}

/// One error for each entry of `stream` that the tokenizer could not read,
/// in order. Groups' interiors are not searched: their errors come up when
/// the group is parsed.
pub fn lexical_errors(stream: &TokenStream, source: &Rc<SourceFile>) -> (r: Vec<SingleError>)
    ensures
        errors_for(r@, error_entries(stream.tokens@)),
{
    let mut r: Vec<SingleError> = Vec::new();
    let mut k: usize = 0;
    let ghost f = |e: Entry| e is Error;
    while k < stream.tokens.len()
        invariant
            k <= stream.tokens@.len(),
            f == (|e: Entry| e is Error),
            errors_for(r@, stream.tokens@.subrange(0, k as int).filter(f)),
        decreases stream.tokens@.len() - k,
    {
        let ghost prev = stream.tokens@.subrange(0, k as int);
        let ghost x = stream.tokens@[k as int];
        proof {
            assert(stream.tokens@.subrange(0, k + 1) =~= prev + seq![x]);
            Seq::filter_distributes_over_add(prev, seq![x], f);
            reveal_with_fuel(Seq::filter, 2);
            assert(seq![x].drop_last() =~= Seq::<Entry>::empty());
        }
        if let Entry::Error(kind) = &stream.tokens[k] {
            r.push(SingleError { source: Rc::clone(source), kind: kind.copy() });
            proof {
                assert(seq![x].filter(f) =~= seq![x]);
                assert(stream.tokens@.subrange(0, k + 1).filter(f) =~= prev.filter(f).push(x));
            }
        } else {
            proof {
                assert(seq![x].filter(f) =~= Seq::<Entry>::empty());
                assert(stream.tokens@.subrange(0, k + 1).filter(f) =~= prev.filter(f));
            }
        }
        k = k + 1;
    }
    assert(stream.tokens@.subrange(0, k as int) =~= stream.tokens@);
    r
}

/// Decides the outcome of a whole parse from what `T` gave and the cursor
/// after it: `T`'s failure after any recorded diagnostics; an error where
/// entries are left over; the recorded diagnostics where there are any;
/// otherwise the value.
pub fn conclude<'a, T>(result: Result<T, Error>, input: ParseStream<'a>) -> (r: Result<T, Error>)
    requires
        input.wf(),
    ensures
        result is Err ==> r is Err && r->Err_0.errors@ == input.errors@ + result->Err_0.errors@,
        result is Ok && !input.at_end() ==> r is Err && r->Err_0.errors@.len() == input.errors@.len() + 1
            && r->Err_0.errors@.subrange(0, input.errors@.len() as int) == input.errors@
            && r->Err_0.errors@[input.errors@.len() as int].kind is UnexpectedToken
            && r->Err_0.errors@[input.errors@.len() as int].kind->UnexpectedToken_expected@.len() == 0
            && r->Err_0.errors@[input.errors@.len() as int].kind->UnexpectedToken_span
            == span_at(input.tokens(), input.pos as int),
        result is Ok && input.at_end() && input.errors@.len() > 0 ==> r is Err
            && r->Err_0.errors@ == input.errors@,
        result is Ok && input.at_end() && input.errors@.len() == 0 ==> r == result,
{
    match result {
        Err(e) => {
            let recorded = Error { errors: input.errors };
            Err(recorded.with(e))
        },
        Ok(value) => {
            if !input.is_empty() {
                let span = input.error_span();
                let e = input.error(ErrorKind::UnexpectedToken { expected: Vec::new(), span });
                let recorded = Error { errors: input.errors };
                Err(recorded.with(e))
            } else if input.errors.len() > 0 {
                Err(Error { errors: input.errors })
            } else {
                Ok(value)
            }
        },
    }
}

/// Parses all of `stream` as one `T`. Fails where the stream holds a
/// tokenizer error, where `T` fails, where entries are left over, or where
/// the parse recorded any diagnostic.
pub fn parse<T: Parse>(stream: &TokenStream, source: Rc<SourceFile>) -> (r: Result<T, Error>)
    ensures
        r is Err ==> r->Err_0.wf(),
        error_entries(stream.tokens@).len() > 0 ==> r is Err && errors_for(
            r->Err_0.errors@,
            error_entries(stream.tokens@),
        ),
        r is Ok ==> error_entries(stream.tokens@).len() == 0,
{
    let lexical = lexical_errors(stream, &source);
    if lexical.len() > 0 {
        return Err(Error { errors: lexical });
    }
    let mut input = ParseStream::new(stream, source);
    let result = input.parse::<T>();
    input.skip_whitespace();
    conclude(result, input)
}

/// The entries that tokenizing `text` gives, as `tokenize` describes them.
pub open spec fn tokenized(tokens: Seq<Entry>, text: Seq<char>) -> bool {
    &&& entries_wf(tokens)
    &&& tiles(tokens, 0)
    &&& kinds_ok(tokens, text)
    &&& entries_ok(tokens) ==> entries_text(tokens) == text
}

/// Tokenizes `text` and parses all of it as one `T`, as `parse` does: the
/// tokenizer's errors, if any, are the result.
pub fn parse_string<T: Parse>(text: String) -> (r: Result<T, Error>)
    ensures
        r is Err ==> r->Err_0.wf(),
        exists|tokens: Seq<Entry>|
            {
                &&& #[trigger] tokenized(tokens, text@)
                &&& error_entries(tokens).len() > 0 ==> r is Err && errors_for(
                    r->Err_0.errors@,
                    error_entries(tokens),
                )
                &&& r is Ok ==> error_entries(tokens).len() == 0
            },
{
    let id = crate::lexer::string_from_chars(&vec!['i', 'n', 'p', 'u', 't']);
    let ghost chars = text@;
    let source = Rc::new(SourceFile::new(id, text));
    let stream = tokenize(&source);
    let ghost tokens = stream.tokens@;
    let r = parse(&stream, source);
    assert(tokenized(tokens, chars));
    r
}

} // verus!
