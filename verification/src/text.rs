use vstd::prelude::*;

verus! {

/// A half-open byte interval `[start, end)` into the original source buffer.
/// Every synthesized AST node and every error carries one.
#[derive(Clone, Copy, PartialEq, Eq, Structural, Debug, Hash)]
pub struct TextRange {
    pub start: usize,
    pub end: usize,
}

impl TextRange {
    /// A range is well formed when its start does not lie past its end.
    pub open spec fn wf(self) -> bool {
        self.start <= self.end
    }

    pub open spec fn spec_len(self) -> int {
        self.end - self.start
    }

    pub open spec fn spec_is_empty(self) -> bool {
        self.start == self.end
    }

    pub fn new(start: usize, end: usize) -> (r: TextRange)
        requires
            start <= end,
        ensures
            r == (TextRange { start, end }),
    {
        TextRange { start, end }
    }

    /// The zero-width range sitting at `at`.
    pub fn empty(at: usize) -> (r: TextRange)
        ensures
            r == (TextRange { start: at, end: at }),
    {
        TextRange { start: at, end: at }
    }

    pub fn len(&self) -> (n: usize)
        requires
            self.wf(),
        ensures
            n == self.spec_len(),
    {
        self.end - self.start
    }

    pub fn is_empty(&self) -> (b: bool)
        ensures
            b == self.spec_is_empty(),
    {
        self.start == self.end
    }
}

} // verus!
