//! A small creative-coding runtime: the verified decision logic behind a
//! window, a paced frame loop, a list of drawable shapes and pointer events.

pub mod error;
pub mod event;
pub mod render;
pub mod shape;
