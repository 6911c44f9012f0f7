//! Lumina core: the verified logic of a context-aware particle overlay engine.
//!
//! The crate holds the render configuration and its clamping rules, the
//! particle presets and rain types with their shader indices and name parsing,
//! the image analysis that derives a luminance mask from a background,
//! the encoder bookkeeping (frame sizes, command line, progress) and the
//! integer arithmetic that sizes GPU dispatches.

pub mod analysis;
pub mod config;
pub mod dispatch;
pub mod export;
pub mod imaging;
pub mod text;
