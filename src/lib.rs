//! A terminal-size guard: it compares the terminal's dimensions with a
//! configured minimum and, while the terminal is too small, holds an
//! exclusive render lock and draws an overlay that says so.

pub mod guard;
pub mod overlay;
pub mod policy;
pub mod rect;

pub use guard::{Event, Guard, LockChange, LockState, Step};
pub use overlay::{decimal, layout, Cell, Paint};
pub use policy::PolicyStore;
pub use rect::{violates, Rect};
