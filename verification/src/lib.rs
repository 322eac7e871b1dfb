//! Lifecycle controller for a single toggleable overlay panel.
//!
//! The library models the logic that governs a floating, non-activating
//! overlay window summoned by a global hotkey: the fixed geometry and window
//! flags it is built with, the reclassification of an ordinary window into an
//! overlay panel, the process-wide registry that answers whether the panel
//! currently exists, the dispatcher that decides what a hotkey event does,
//! and the idempotent, strictly ordered teardown.  The host toolkit that
//! actually creates and destroys OS windows sits outside this crate; callers
//! feed its observations in as plain values and carry the decided actions
//! back out.

pub mod controller;
pub mod geometry;
pub mod lifecycle;
pub mod panel;
pub mod registry;
pub mod style;
pub mod window;
