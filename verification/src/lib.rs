//! Verified state layer of a widget-gallery application.
//!
//! The gallery shows one demo page per widget kind. Every page owns a small
//! piece of state (which checkbox is ticked, which tab is selected, the
//! bounds of a slider) and an `update` function that folds a message into
//! that state. This crate holds those states and update functions, with
//! contracts that pin down exactly how each message changes each field.
//! Rendering, windowing and event delivery belong to the host GUI toolkit
//! and live outside this crate.

pub mod gallery;
pub mod page;
pub mod style;
pub mod theme;
pub mod widget;
