//! A verified command-line builder for screen capture through an external
//! ffmpeg process: typed capture options (region, format, accelerator,
//! audio source) are collected by a fluent builder and compiled, after
//! validation, into the exact ordered argument list the tool expects.

pub mod ffmpeg;
pub mod laws;
pub mod numfmt;
