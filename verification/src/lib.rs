//! Core of an interactive editor for lit two-dimensional scenes.
//!
//! A designer loads a background image, places point lights over it, and
//! tunes camera framing, per-light parameters and an ambient term while an
//! immediate-mode panel shows the result live.  This crate holds the part
//! of that editor with real state-consistency rules: the color codec used
//! at every editor boundary, the light entity store with its naming and
//! rename-commit discipline, the scene session state machine that drives
//! the file-picker workflow, and the per-frame synchronizer that applies
//! panel edits and intents back into the scene.  The widget toolkit, the
//! file dialog, the asset loader and the render loop are unverified
//! collaborators: they hand this crate plain values and take plain values
//! back.

pub mod color;
pub mod names;
pub mod panel;
pub mod session;
pub mod store;
