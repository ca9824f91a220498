//! Highlights keywords and patterns in lines of text with terminal colors.

pub mod rules;
pub mod pattern;
pub mod matcher;
pub mod render;
pub mod highlight;
pub mod preset;
