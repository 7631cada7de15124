use vstd::prelude::*;

verus! {

/// A named source text. Offsets into it count characters.
#[derive(Debug)]
pub struct SourceFile {
    pub id: String,
    pub contents: String,
}

impl SourceFile {
    pub fn new(id: String, contents: String) -> (r: SourceFile)
        ensures
            r.id@ == id@,
            r.contents@ == contents@,
    {
        SourceFile { id, contents }
    }

    pub fn id(&self) -> (r: &String)
        ensures
            r@ == self.id@,
    {
        &self.id
    }
}

/// A half-open range `start..end` of character offsets in a source text.
#[derive(Clone, Copy, Debug, PartialEq, Eq, Structural)]
pub struct Span {
    pub start: usize,
    pub end: usize,
}

impl Span {
    pub open spec fn wf(self) -> bool {
        self.start <= self.end
    }

    pub fn new(start: usize, end: usize) -> (r: Span)
        requires
            start <= end,
        ensures
            r.start == start,
            r.end == end,
            r.wf(),
    {
        Span { start, end }
    }

    pub fn start(&self) -> (r: usize)
        ensures
            r == self.start,
    {
        self.start
    }

    pub fn end(&self) -> (r: usize)
        ensures
            r == self.end,
    {
        self.end
    }
}

} // verus!
