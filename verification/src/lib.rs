//! Sampling of sparse, evenly spaced still frames from a video stream.
//!
//! The library holds the decisions of the frame-sampling engine: which
//! decoded positions are kept, how output files are named so that concurrent
//! samplers never collide, how buffers are validated and encoded, and how
//! discovery and cleanup results are aggregated. Decoding, process spawning
//! and the file system are driven by the caller, which feeds their outcomes
//! to the state machines defined here.

pub mod controller;
pub mod encoder;
pub mod error;
pub mod naming;
pub mod orchestrator;
pub mod pathset;
pub mod seek;
pub mod segmenter;
pub mod sequential;
