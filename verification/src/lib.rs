//! Navigation-and-rendering engine for a terminal dashboard that lists
//! wireless networks by category.
//!
//! The library owns the tab state machine, the scrollable list viewport
//! with selection tracking, the per-item three-row layout, and the
//! signal-quality glyph encoder.  It computes plain data (strings, style
//! flags, rectangles); painting those onto a terminal and gathering input
//! events are the surrounding program's job.

pub mod app;
pub mod backend;
pub mod layout;
pub mod list;
pub mod models;
pub mod signal;
pub mod tab;
pub mod text;
