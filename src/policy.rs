use vstd::prelude::*;

use crate::rect::Rect;

verus! {

/// The minimum a stored requirement takes after an update: a value that
/// decoded replaces it, one that did not (`None`) leaves it as it was.
pub open spec fn updated(prev: Rect, decoded: Option<Rect>) -> Rect {
    match decoded {
        Some(r) => r,
        None => prev,
    }
}

/// The minimum read at startup: a value that is absent or did not decode
/// counts as no minimum.
pub open spec fn loaded(decoded: Option<Rect>) -> Rect {
    match decoded {
        Some(r) => r,
        None => Rect::zero(),
    }
}

/// The minimum after the stored value was removed.
pub open spec fn removed() -> Rect {
    Rect::zero()
}

/// Holds the current minimum terminal size.
///
/// Raw configuration values are decoded by the caller; a value that could
/// not be decoded reaches the store as `None` and never fails it.
#[derive(Clone, Copy, Debug, PartialEq, Eq, Structural)]
pub struct PolicyStore {
    current: Rect,
}

impl View for PolicyStore {
    type V = Rect;

    closed spec fn view(&self) -> Rect {
        self.current
    }
}

impl PolicyStore {
    /// A store whose minimum is what was found at startup, if anything.
    pub fn initial_load(decoded: Option<Rect>) -> (r: Self)
        ensures
            r@ == loaded(decoded),
    {
        match decoded {
            Some(rect) => PolicyStore { current: rect },
            None => PolicyStore { current: Rect::min() },
        }
    }

    /// Replaces the minimum with a value that decoded; ignores one that did not.
    pub fn apply_update(&mut self, decoded: Option<Rect>)
        ensures
            final(self)@ == updated(old(self)@, decoded),
    {
        if let Some(rect) = decoded {
            self.current = rect;
        }
    }

    /// Resets the minimum to (0, 0) after the stored value was removed.
    pub fn apply_removal(&mut self)
        ensures
            final(self)@ == removed(),
    {
        self.current = Rect::min();
    }

    /// The current minimum.
    pub fn current(&self) -> (r: Rect)
        ensures
            r == self@,
    {
        self.current
    }
}

/// Removing the stored value and loading with nothing stored both give the
/// minimum of no requirement, (0, 0).
pub proof fn lemma_removal_and_absent_load_agree()
    ensures
        removed() == Rect::zero(),
        loaded(None) == Rect::zero(),
        removed() == loaded(None),
{
}

/// An update whose value could not be decoded leaves the stored minimum as
/// it was.
pub proof fn lemma_malformed_update_keeps_minimum(prev: Rect)
    ensures
        updated(prev, None) == prev,
{
}

} // verus!
