//! Gestro: system-wide mouse gestures. Hold the right mouse button, drag in one of eight
//! directions and release to fire the keyboard shortcut bound to that direction; a click
//! without a drag (or a drag shorter than the threshold) is given back as a plain right-click.
//!
//! This crate holds the decisions of the program, each with a verified contract: the
//! directions, the bindings, the gesture tracker, the handling of grabbed input events, the
//! mapping of key names to keys, the plan by which a shortcut is played on the keyboard, and
//! the small decisions of the tray application.

use vstd::prelude::*;

/// The eight compass directions, their order and labels.
pub mod direction;
/// Character-level helpers for key names.
pub mod text;
/// Shortcuts and the shortcut bound to each direction.
pub mod config;
/// Key names, keys and the plan by which a shortcut is played.
pub mod simulator;
/// Tracking one gesture from right press to right release.
pub mod gesture;
/// What the input callback does with each grabbed event.
pub mod grabber;
/// Decisions of the tray application: menu, autostart, exit, replayed clicks.
pub mod control;

verus! {

} // verus!
