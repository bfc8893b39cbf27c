//! Turns an operating system's structured crash report into a
//! symbolicated backtrace of the faulting thread: a tolerant two-document
//! parser, case-insensitive image lookup, offset extraction, resolver
//! output normalization with demangling, and noise-filtered rendering.

pub mod addresses;
pub mod decode;
pub mod demangle;
pub mod images;
pub mod json;
pub mod model;
pub mod normalize;
pub mod probe;
pub mod render;
pub mod report;
pub mod text;
