//! Discrete core of a constant-Q spectrum analyser.
//!
//! The library decides everything about the transform that is not floating
//! point arithmetic: which parameters are acceptable, where each bin's kernel
//! sits inside the shared window, which samples a kernel is synthesised at,
//! which slice of a frame each bin is correlated against, which bin is the
//! loudest, when a frame is complete and how the analysis loop moves between
//! its states. The numeric sample values are supplied by the caller.
pub mod analysis;
pub mod cqt;
pub mod pipes;
pub mod scale;
