//! Failures that the sampling engine reports to its caller.

use vstd::prelude::*;

verus! {

/// Which of the two paths checked up front was missing.
#[derive(Clone, Copy, Debug, PartialEq, Eq, Structural)]
pub enum MissingPath {
    /// The source video does not exist.
    Source,
    /// The directory that receives the frames does not exist.
    OutputDirectory,
}

/// A failure that ends the operation that reports it.
#[derive(Clone, Copy, Debug, PartialEq, Eq, Structural)]
pub enum SamplerError {
    /// A path that must exist before sampling starts is missing.
    InvalidInput { missing: MissingPath },
    /// The decoder could not open the source.
    CannotOpen,
    /// The segmenting process could not be started (`exit_code` is `None`)
    /// or ended with a status other than zero.
    SegmentationFailed { exit_code: Option<i32> },
    /// The pixel buffer does not hold exactly `width * height * 3` bytes.
    BufferSizeMismatch { expected: u128, actual: usize },
    /// The image encoder refused the frame.
    EncodeOrIoError,
    /// The glob pattern is malformed near the given character position.
    InvalidPattern { position: usize },
}

} // verus!
