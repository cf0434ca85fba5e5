//! Core logic of a clipboard manager's "smart paste" feature.
//!
//! When the user pastes from the manager's own window, the content must land
//! in whatever external application last held keyboard focus. This crate
//! holds the platform-neutral part of that feature: the decision made for
//! each foreground-change event, the single-slot state remembering the last
//! external window, and the state machine that sequences focus restoration
//! and keystroke injection for one paste invocation. The operating-system
//! calls themselves (event hook, focus transfer, key synthesis, sleeps) are
//! performed by the surrounding application, which drives the state machine
//! with their results.

pub mod machine;
pub mod slot;
