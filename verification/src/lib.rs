//! A cross-application selection watcher: classifies press/release pairs of
//! the primary pointer button by their elapsed time, and, when a press lasts
//! at least the drag threshold, extracts the text of the focused element's
//! active selection ranges and decides whether anything was detected.
//!
//! The platform pieces (the low-level hook, the accessibility queries, the
//! event loop) live outside this library and feed it plain values; every
//! decision the watcher makes is verified here.

pub mod extract;
pub mod gesture;
pub mod output;
pub mod watcher;

pub use extract::FocusQuery;
pub use gesture::DRAG_THRESHOLD_MS;
pub use gesture::SETTLE_DELAY_MS;
pub use gesture::PointerEvent;
pub use gesture::PressState;
