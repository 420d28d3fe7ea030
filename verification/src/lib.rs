//! Navigation state and input rules of a small single-window web browser shell.
//!
//! The controller in `browser` owns the history of one window and answers each
//! user action with an order for the window; `timeline` is its mathematical
//! model and `laws` states what holds of it. `text`, `keys`, `status` and
//! `policy` hold the rules on addresses, key chords, the status line and
//! foreign links.

pub mod browser;
pub mod keys;
pub mod laws;
pub mod policy;
pub mod status;
pub mod text;
pub mod timeline;
