//! State and per-frame decisions of a pinned, translucent reference-image viewer.
//!
//! The viewer shows one image in a small window that can stay above other windows, fades it
//! to a chosen opacity, and can lay a measurement grid over it. This library holds the
//! viewer's state, the events that change it, and the rules for what each frame shows, all
//! verified. Showing widgets, file dialogs and pixels is the host program's part.
//!
//! Single-precision numbers (the opacity, the rotation angle) cross into the library as
//! their IEEE 754 bit patterns, so that every computation here is integer arithmetic.
//!
//! - [`state`]: the state, its model, and the events.
//! - [`opacity`]: the opacity and the two 8-bit levels derived from it.
//! - [`color`]: grid colours and the painter's colour type.
//! - [`grid`]: cell counts and the strokes of the grid overlay.
//! - [`frame`]: what a frame shows.
//! - [`labels`]: the texts of the toolbar.
//! - [`files`]: the file dialog's filter and image resource locators.

pub mod color;
pub mod files;
pub mod frame;
pub mod grid;
pub mod labels;
pub mod opacity;
pub mod state;
