use vstd::prelude::*;

use crate::overlay::{layout, overlay, Cell};
use crate::policy::{loaded, removed, updated, PolicyStore};
use crate::rect::{violates, violates_spec, Rect};

verus! {

/// Whether the guard holds the exclusive render lock.
#[derive(Clone, Copy, Debug, PartialEq, Eq, Structural)]
pub enum LockState {
    Unlocked,
    Locked,
}

/// What to do with the render lock after an event.
#[derive(Clone, Copy, Debug, PartialEq, Eq, Structural)]
pub enum LockChange {
    /// Leave it as it is.
    Keep,
    /// Take exclusive suppression and publish the guard as active.
    Acquire,
    /// Give suppression back and publish the guard as inactive.
    Release,
}

/// An input to the guard, with configuration values already decoded
/// (`None` for a value that did not decode).
#[derive(Clone, Copy, Debug, PartialEq, Eq, Structural)]
pub enum Event {
    Resized { width: u32, height: u32 },
    PolicyUpdated { decoded: Option<Rect> },
    PolicyRemoved,
}

/// The side effects that one event asks for.
///
/// When `frame` is present the screen is cleared, its cells are plotted and
/// everything is rendered; `claim` marks a resize event as handled here so
/// that lower-priority consumers do not also react to it.
#[derive(Clone, Debug)]
pub struct Step {
    pub lock: LockChange,
    pub frame: Option<Vec<Cell>>,
    pub claim: bool,
}

/// What a `Step` asks for, with the frame as a sequence of cells.
pub struct StepView {
    pub lock: LockChange,
    pub frame: Option<Seq<Cell>>,
    pub claim: bool,
}

impl View for Step {
    type V = StepView;

    open spec fn view(&self) -> StepView {
        StepView {
            lock: self.lock,
            frame: match self.frame {
                Some(cells) => Some(cells@),
                None => None,
            },
            claim: self.claim,
        }
    }
}

/// The guard's state: terminal size, current minimum, and the lock.
pub struct GuardView {
    pub term: Rect,
    pub min: Rect,
    pub lock: LockState,
}

/// The lock state that matches whether the terminal violates the minimum.
pub open spec fn lock_for(violating: bool) -> LockState {
    if violating {
        LockState::Locked
    } else {
        LockState::Unlocked
    }
}

impl GuardView {
    /// The lock is held exactly while the terminal is too small.
    pub open spec fn consistent(self) -> bool {
        self.lock == lock_for(violates_spec(self.term, self.min))
    }
}

/// How the lock changes: acquired on entering violation, released on
/// leaving it, else kept.
pub open spec fn lock_change(violating: bool, lock: LockState) -> LockChange {
    if violating && lock == LockState::Unlocked {
        LockChange::Acquire
    } else if !violating && lock == LockState::Locked {
        LockChange::Release
    } else {
        LockChange::Keep
    }
}

/// One run of the transition function: the new lock state and the step.
/// While the terminal violates the minimum the overlay is redrawn, whether
/// or not the lock was already held; otherwise nothing is drawn.
pub open spec fn reconcile(term: Rect, min: Rect, lock: LockState) -> (LockState, StepView) {
    let violating = violates_spec(term, min);
    (
        lock_for(violating),
        StepView {
            lock: lock_change(violating, lock),
            frame: if violating {
                Some(overlay(term, min))
            } else {
                None
            },
            claim: false,
        },
    )
}

/// The state after `event` and the step it asks for.
pub open spec fn next(g: GuardView, event: Event) -> (GuardView, StepView) {
    match event {
        Event::Resized { width, height } => {
            let term = Rect { width, height };
            let r = reconcile(term, g.min, g.lock);
            (
                GuardView { term, min: g.min, lock: r.0 },
                StepView { claim: r.0 == LockState::Locked, ..r.1 },
            )
        },
        Event::PolicyUpdated { decoded } => match decoded {
            Some(_) => {
                let min = updated(g.min, decoded);
                let r = reconcile(g.term, min, g.lock);
                (GuardView { term: g.term, min, lock: r.0 }, r.1)
            },
            None => (g, StepView { lock: LockChange::Keep, frame: None, claim: false }),
        },
        Event::PolicyRemoved => {
            let min = removed();
            let r = reconcile(g.term, min, g.lock);
            (GuardView { term: g.term, min, lock: r.0 }, r.1)
        },
    }
}

/// Runs the transition function once.
fn run_reconcile(term: Rect, min: Rect, lock: LockState) -> (r: (LockState, Step))
    ensures
        r.0 == reconcile(term, min, lock).0,
        r.1@ == reconcile(term, min, lock).1,
{
    let violating = violates(term, min);
    if violating {
        let change = if lock == LockState::Unlocked {
            LockChange::Acquire
        } else {
            LockChange::Keep
        };
        (LockState::Locked, Step { lock: change, frame: Some(layout(term, min)), claim: false })
    } else {
        let change = if lock == LockState::Locked {
            LockChange::Release
        } else {
            LockChange::Keep
        };
        (LockState::Unlocked, Step { lock: change, frame: None, claim: false })
    }
}

/// The guard's reconciler. It holds the terminal size, the minimum and the
/// lock state, and keeps the lock held exactly while the terminal is too
/// small.
pub struct Guard {
    term: Rect,
    policy: PolicyStore,
    lock: LockState,
}

impl View for Guard {
    type V = GuardView;

    closed spec fn view(&self) -> GuardView {
        GuardView { term: self.term, min: self.policy@, lock: self.lock }
    }
}

impl Guard {
    #[verifier::type_invariant]
    spec fn inv(&self) -> bool {
        self@.consistent()
    }

    /// Starts the guard at terminal size `width` x `height` with the minimum
    /// read at startup, running the transition function once from unlocked.
    pub fn start(width: u32, height: u32, initial: Option<Rect>) -> (r: (Guard, Step))
        ensures
            r.0@.term == Rect::new_spec(width, height),
            r.0@.min == loaded(initial),
            r.0@.lock == reconcile(r.0@.term, r.0@.min, LockState::Unlocked).0,
            r.1@ == reconcile(r.0@.term, r.0@.min, LockState::Unlocked).1,
            r.0@.consistent(),
    {
        let term = Rect::new(width, height);
        let policy = PolicyStore::initial_load(initial);
        let (lock, step) = run_reconcile(term, policy.current(), LockState::Unlocked);
        (Guard { term, policy, lock }, step)
    }

    /// Applies one event and returns the side effects it asks for.
    pub fn handle(&mut self, event: Event) -> (r: Step)
        ensures
            final(self)@ == next(old(self)@, event).0,
            r@ == next(old(self)@, event).1,
            final(self)@.consistent(),
    {
        proof {
            use_type_invariant(&*self);
        }
        match event {
            Event::Resized { width, height } => {
                let term = Rect::new(width, height);
                let (lock, step) = run_reconcile(term, self.policy.current(), self.lock);
                let claim = lock == LockState::Locked;
                *self = Guard { term, policy: self.policy, lock };
                Step { claim, ..step }
            },
            Event::PolicyUpdated { decoded } => {
                if decoded.is_some() {
                    let mut policy = self.policy;
                    policy.apply_update(decoded);
                    let (lock, step) = run_reconcile(self.term, policy.current(), self.lock);
                    *self = Guard { term: self.term, policy, lock };
                    step
                } else {
                    Step { lock: LockChange::Keep, frame: None, claim: false }
                }
            },
            Event::PolicyRemoved => {
                let mut policy = self.policy;
                policy.apply_removal();
                let (lock, step) = run_reconcile(self.term, policy.current(), self.lock);
                *self = Guard { term: self.term, policy, lock };
                step
            },
        }
    }

    /// The last known terminal size.
    pub fn term(&self) -> (r: Rect)
        ensures
            r == self@.term,
    {
        self.term
    }

    /// The minimum currently in force.
    pub fn minimum(&self) -> (r: Rect)
        ensures
            r == self@.min,
    {
        self.policy.current()
    }

    /// Whether the guard holds the render lock.
    pub fn is_locked(&self) -> (r: bool)
        ensures
            r == (self@.lock == LockState::Locked),
    {
        self.lock == LockState::Locked
    }
}

/// Which branch the transition function takes (acquire, redraw, release or
/// nothing) depends only on whether the terminal violates the minimum and
/// on whether the lock is held.
pub proof fn lemma_branch_depends_on_violation_and_lock(
    term1: Rect,
    min1: Rect,
    term2: Rect,
    min2: Rect,
    lock: LockState,
)
    requires
        violates_spec(term1, min1) == violates_spec(term2, min2),
    ensures
        reconcile(term1, min1, lock).0 == reconcile(term2, min2, lock).0,
        reconcile(term1, min1, lock).1.lock == reconcile(term2, min2, lock).1.lock,
        reconcile(term1, min1, lock).1.frame is Some == reconcile(term2, min2, lock).1.frame is Some,
{
}

/// Handling the same event twice in a row changes the lock at most once:
/// the second time leaves the state as the first left it, keeps the lock,
/// and draws the same frame (or none, as the first did).
pub proof fn lemma_repeated_event_is_idempotent(g: GuardView, event: Event)
    ensures
        next(next(g, event).0, event).0 == next(g, event).0,
        next(next(g, event).0, event).1.lock == LockChange::Keep,
        next(next(g, event).0, event).1.frame == next(g, event).1.frame,
        next(next(g, event).0, event).1.claim == next(g, event).1.claim,
{
}

} // verus!
