use vstd::prelude::*;

use crate::error::Error;
use crate::parse::Parse;
use crate::stream::punct_at;
use crate::stream::ParseStream;
use crate::token::PunctKind;

verus! {

/// Lists of items separated by punctuation.
pub struct Punctuated;

impl Punctuated {
    /// Items separated by `separator`, where a separator must be followed by
    /// an item. An empty stream is an empty list.
    pub fn parse_separated<'a, T: Parse>(input: &mut ParseStream<'a>, separator: PunctKind) -> (r:
        Result<Vec<T>, Error>)
        requires
            old(input).wf(),
        ensures
            final(input).wf(),
            final(input).same_stream(*old(input)),
            r is Err ==> final(input).pos == old(input).pos && r->Err_0.wf(),
            old(input).exhausted() ==> r is Ok && r->Ok_0@.len() == 0 && final(input).pos == old(
                input,
            ).pos,
            r is Ok && !old(input).exhausted() ==> r->Ok_0@.len() > 0,
            r is Ok ==> !punct_at(final(input).tokens(), final(input).pos as int, separator),
    {
        parse_list(input, separator, false)
    }

    /// Items separated by `separator`; one separator after the last item is
    /// allowed and consumed when the stream ends right after it.
    pub fn parse_separated_trailing<'a, T: Parse>(
        input: &mut ParseStream<'a>,
        separator: PunctKind,
    ) -> (r: Result<Vec<T>, Error>)
        requires
            old(input).wf(),
        ensures
            final(input).wf(),
            final(input).same_stream(*old(input)),
            r is Err ==> final(input).pos == old(input).pos && r->Err_0.wf(),
            old(input).exhausted() ==> r is Ok && r->Ok_0@.len() == 0 && final(input).pos == old(
                input,
            ).pos,
            r is Ok && !old(input).exhausted() ==> r->Ok_0@.len() > 0,
            r is Ok ==> final(input).exhausted() || !punct_at(
                final(input).tokens(),
                final(input).pos as int,
                separator,
            ),
    {
        parse_list(input, separator, true)
    }
}

/// What a separated list does after an item.
#[derive(Clone, Copy, Debug, PartialEq, Eq, Structural)]
pub enum ListStep {
    /// No separator follows: the list ends before it.
    Stop,
    /// A trailing separator followed by the end: consume it and end.
    StopAfterSeparator,
    /// Consume the separator; another item must follow.
    Continue,
    /// A separator followed by the end where none may trail: fail.
    TrailingError,
}

/// The decision after an item: `separator_next` tells whether the separator
/// follows, `end_after` whether the stream ends right after it.
pub fn list_step(separator_next: bool, end_after: bool, trailing: bool) -> (r: ListStep)
    ensures
        !separator_next ==> r == ListStep::Stop,
        separator_next && trailing && end_after ==> r == ListStep::StopAfterSeparator,
        separator_next && !trailing && end_after ==> r == ListStep::TrailingError,
        separator_next && !end_after ==> r == ListStep::Continue,
{
    if !separator_next {
        ListStep::Stop
    } else if end_after {
        if trailing {
            ListStep::StopAfterSeparator
        } else {
            ListStep::TrailingError
        }
    } else {
        ListStep::Continue
    }
}

fn parse_list<'a, T: Parse>(input: &mut ParseStream<'a>, separator: PunctKind, trailing: bool) -> (r:
    Result<Vec<T>, Error>)
    requires
        old(input).wf(),
    ensures
        final(input).wf(),
        final(input).same_stream(*old(input)),
        r is Err ==> final(input).pos == old(input).pos && r->Err_0.wf(),
        old(input).exhausted() ==> r is Ok && r->Ok_0@.len() == 0 && final(input).pos == old(input).pos,
        r is Ok && !old(input).exhausted() ==> r->Ok_0@.len() > 0,
        r is Ok ==> (trailing && final(input).exhausted()) || !punct_at(
            final(input).tokens(),
            final(input).at(),
            separator,
        ),
{
    let mut items: Vec<T> = Vec::new();
    if input.is_exhausted() {
        return Ok(items);
    }
    let start = input.pos;
    match input.parse::<T>() {
        Ok(item) => items.push(item),
        Err(e) => return Err(e),
    }
    loop
        invariant
            input.wf(),
            input.same_stream(*old(input)),
            start == old(input).pos,
            input.pos >= start,
            items@.len() > 0,
            !old(input).exhausted(),
        decreases input.tokens().len() - input.pos,
    {
        let separator_next = input.peek_punct(separator);
        let mut after = input.fork();
        let _ = after.parse_punct(separator);
        let end_after = after.is_exhausted();
        match list_step(separator_next, end_after, trailing) {
            ListStep::Stop => {
                return Ok(items);
            },
            ListStep::StopAfterSeparator => {
                let _ = input.parse_punct(separator);
                return Ok(items);
            },
            ListStep::Continue => {
                let _ = input.parse_punct(separator);
            },
            ListStep::TrailingError => {
                let _ = input.parse_punct(separator);
                let e = input.end_of_file();
                input.pos = start;
                return Err(e);
            },
        }
        match input.parse::<T>() {
            Ok(item) => items.push(item),
            Err(e) => {
                input.pos = start;
                return Err(e);
            },
        }
    }
}

} // verus!
