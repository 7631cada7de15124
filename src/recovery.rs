use vstd::prelude::*;

use crate::error::Error;
use crate::error::SingleError;
use crate::parse::Parse;
use crate::stream::ParseStream;

verus! {

impl<'a> ParseStream<'a> {
    /// Skips at least one entry, then keeps skipping until `boundary` holds
    /// of the cursor or the stream is exhausted. Does nothing at the end.
    pub fn synchronise<F: Fn(&ParseStream<'a>) -> bool>(&mut self, boundary: F)
        requires
            old(self).wf(),
            forall|s: &ParseStream<'a>| #[trigger] boundary.requires((s,)),
        ensures
            final(self).wf(),
            final(self).same_stream(*old(self)),
            final(self).errors == old(self).errors,
            old(self).at_end() ==> final(self).pos == old(self).pos,
            !old(self).at_end() ==> final(self).pos > old(self).pos,
            !old(self).at_end() ==> final(self).at_end() || boundary.ensures((&*final(self),), true),
            forall|q: int|
                old(self).pos < q < final(self).pos ==> boundary.ensures(
                    (&#[trigger] old(self).moved_to(q),),
                    false,
                ),
    {
        if self.is_empty() {
            return;
        }
        let _ = self.next();
        loop
            invariant
                self.wf(),
                self.same_stream(*old(self)),
                self.errors == old(self).errors,
                self.pos > old(self).pos,
                !old(self).at_end(),
                forall|q: int|
                    old(self).pos < q < self.pos ==> boundary.ensures(
                        (&#[trigger] old(self).moved_to(q),),
                        false,
                    ),
                forall|s: &ParseStream<'a>| #[trigger] boundary.requires((s,)),
            decreases self.tokens().len() - self.pos,
        {
            if self.is_empty() {
                return;
            }
            let ghost here = self.pos as int;
            if boundary(&*self) {
                return;
            }
            assert(*self == old(self).moved_to(here));
            let _ = self.next();
        }
    }
}

/// The errors held by an optional failure set; none where there is none.
pub open spec fn held(failures: Option<Error>) -> Seq<SingleError> {
    match failures {
        Some(e) => e.errors@,
        None => Seq::empty(),
    }
}

/// One step of a recovering pass: the failures so far, then the diagnostics
/// `recorded` while parsing one unit, then that unit's own failure, if any.
/// The result is a failure set exactly when one of them holds an error.
pub fn accumulate(failures: Option<Error>, recorded: Vec<SingleError>, failure: Option<Error>) -> (r:
    Option<Error>)
    requires
        failures is Some ==> failures->0.wf(),
        failure is Some ==> failure->0.wf(),
    ensures
        held(r) == held(failures) + recorded@ + held(failure),
        r is None <==> (failures is None && recorded@.len() == 0 && failure is None),
        r is Some ==> r->0.wf(),
{
    let mut errors = match failures {
        Some(f) => f.errors,
        None => Vec::new(),
    };
    let mut more = recorded;
    errors.append(&mut more);
    if let Some(e) = failure {
        let mut last = e.errors;
        errors.append(&mut last);
    }
    if errors.len() == 0 {
        None
    } else {
        Some(Error { errors })
    }
}

/// Parses `T` after `T` until the stream is exhausted. A failed unit does not
/// end the pass: its error is kept, the cursor skips to the next boundary
/// (see `synchronise`), and parsing goes on. Diagnostics recorded on the
/// cursor along the way are taken into the result. The result is every unit
/// where nothing failed and nothing was recorded, and otherwise every error,
/// in order; the units that did parse are then dropped.
pub fn parse_recovering<'a, T: Parse, F: Fn(&ParseStream<'a>) -> bool>(
    input: &mut ParseStream<'a>,
    boundary: F,
) -> (r: Result<Vec<T>, Error>)
    requires
        old(input).wf(),
        forall|s: &ParseStream<'a>| #[trigger] boundary.requires((s,)),
    ensures
        final(input).wf(),
        final(input).same_stream(*old(input)),
        final(input).at_end(),
        final(input).errors@ == old(input).errors@,
        r is Err ==> r->Err_0.wf(),
        r is Ok && !old(input).at_end() ==> r->Ok_0@.len() > 0,
        old(input).at_end() ==> r is Ok && r->Ok_0@.len() == 0,
{
    let mut items: Vec<T> = Vec::new();
    let start_errors = input.errors.len();
    let mut failures: Option<Error> = None;
    while !input.is_empty()
        invariant
            input.wf(),
            input.same_stream(*old(input)),
            input.errors@ == old(input).errors@,
            start_errors == old(input).errors@.len(),
            failures is Some ==> failures->0.wf(),
            failures is None && !old(input).at_end() && input.pos > old(input).pos ==> items@.len() > 0,
            input.pos >= old(input).pos,
            old(input).at_end() ==> input.pos == old(input).pos && failures is None && items@.len() == 0,
            forall|s: &ParseStream<'a>| #[trigger] boundary.requires((s,)),
        decreases input.tokens().len() - input.pos,
    {
        let before = input.pos;
        match input.parse::<T>() {
            Ok(item) => {
                let recorded = input.errors.split_off(start_errors);
                assert(input.errors@ =~= old(input).errors@);
                if input.pos == before {
                    // A unit that consumes nothing cannot make progress.
                    let span = input.error_span();
                    let e = input.error(crate::error::ErrorKind::UnexpectedToken { expected: Vec::new(), span });
                    failures = accumulate(failures, recorded, Some(e));
                    input.synchronise(&boundary);
                } else {
                    failures = accumulate(failures, recorded, None);
                    items.push(item);
                }
            },
            Err(e) => {
                let recorded = input.errors.split_off(start_errors);
                assert(input.errors@ =~= old(input).errors@);
                failures = accumulate(failures, recorded, Some(e));
                input.synchronise(&boundary);
            },
        }
    }
    match failures {
        Some(f) => Err(f),
        None => Ok(items),
    }
}

} // verus!
