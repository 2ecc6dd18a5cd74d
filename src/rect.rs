use vstd::prelude::*;

verus! {

/// A width and a height in terminal cells.
#[derive(Clone, Copy, Debug, PartialEq, Eq, Structural)]
pub struct Rect {
    pub width: u32,
    pub height: u32,
}

impl Rect {
    /// The smallest possible requirement: every terminal satisfies it.
    pub fn min() -> (r: Self)
        ensures
            r == Rect::zero(),
    {
        Rect { width: 0, height: 0 }
    }

    pub open spec fn zero() -> Rect {
        Rect { width: 0, height: 0 }
    }

    pub open spec fn new_spec(width: u32, height: u32) -> Rect {
        Rect { width, height }
    }

    /// A size of `width` x `height` cells.
    pub fn new(width: u32, height: u32) -> (r: Self)
        ensures
            r == Rect::new_spec(width, height),
    {
        Rect { width, height }
    }
}

/// A terminal violates a minimum when it is narrower or shorter than it.
pub open spec fn violates_spec(term: Rect, min: Rect) -> bool {
    term.width < min.width || term.height < min.height
}

/// Whether the terminal size `term` falls short of `min`.
pub fn violates(term: Rect, min: Rect) -> (r: bool)
    ensures
        r == violates_spec(term, min),
        r <==> (term.width < min.width || term.height < min.height),
{
    term.width < min.width || term.height < min.height
}

} // verus!
