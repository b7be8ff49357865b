//! The segmenter: how the external stream-copy splitter is invoked, and
//! what its exit means.
//!
//! The caller spawns the process with the arguments built here, waits for
//! it, and hands back how it ended together with the expansion of the
//! pattern that finds the segments again.

use crate::error::SamplerError;
use crate::naming::{append_decimal, decimal};
use crate::pathset::{discovered, get_files, texts, Expansion};
use vstd::prelude::*;
use vstd::string::StringExecFns;

verus! {

/// How the segmenting process ended.
#[derive(Clone, Copy, Debug, PartialEq, Eq, Structural)]
pub enum ProcessExit {
    /// The process could not be started.
    NotStarted,
    /// The process ran and ended; `code` is `None` where the system reports
    /// no exit code for it.
    Exited { code: Option<i32> },
}

/// The arguments of the segmenting process: quiet, copy every stream of the
/// input without re-encoding, cut every `seconds` seconds, and start each
/// segment's timestamps at zero.
pub open spec fn segmenter_command(source: Seq<char>, seconds: nat, output_pattern: Seq<char>) -> Seq<
    Seq<char>,
> {
    seq![
        "-v"@,
        "quiet"@,
        "-i"@,
        source,
        "-c"@,
        "copy"@,
        "-map"@,
        "0"@,
        "-segment_time"@,
        decimal(seconds),
        "-f"@,
        "segment"@,
        "-reset_timestamps"@,
        "1"@,
        output_pattern,
    ]
}

/// The error that an exit stands for, if any: only the exit code zero is a
/// success. A process that ended without a code is reported with -1.
pub open spec fn exit_failure(exit: ProcessExit) -> Option<SamplerError> {
    match exit {
        ProcessExit::NotStarted => Some(SamplerError::SegmentationFailed { exit_code: None }),
        ProcessExit::Exited { code: Some(code) } => if code == 0 {
            None
        } else {
            Some(SamplerError::SegmentationFailed { exit_code: Some(code) })
        },
        ProcessExit::Exited { code: None } => Some(
            SamplerError::SegmentationFailed { exit_code: Some(-1i32) },
        ),
    }
}

/// What segmentation returns for an exit and an expansion.
pub open spec fn segmented(exit: ProcessExit, expansion: Expansion) -> Result<
    Seq<Seq<char>>,
    SamplerError,
> {
    match exit_failure(exit) {
        Some(e) => Err(e),
        None => discovered(expansion),
    }
}

/// Builds the argument list for splitting `source` into segments of
/// `segment_seconds` seconds, written to the files that `output_pattern`
/// numbers.
pub fn segmenter_arguments(source: &str, segment_seconds: u64, output_pattern: &str) -> (arguments:
    Vec<String>)
    ensures
        texts(arguments@) == segmenter_command(source@, segment_seconds as nat, output_pattern@),
{
    let mut duration = String::new();
    append_decimal(&mut duration, segment_seconds);
    let mut arguments: Vec<String> = Vec::new();
    arguments.push(String::from_str("-v"));
    arguments.push(String::from_str("quiet"));
    arguments.push(String::from_str("-i"));
    arguments.push(String::from_str(source));
    arguments.push(String::from_str("-c"));
    arguments.push(String::from_str("copy"));
    arguments.push(String::from_str("-map"));
    arguments.push(String::from_str("0"));
    arguments.push(String::from_str("-segment_time"));
    arguments.push(duration);
    arguments.push(String::from_str("-f"));
    arguments.push(String::from_str("segment"));
    arguments.push(String::from_str("-reset_timestamps"));
    arguments.push(String::from_str("1"));
    arguments.push(String::from_str(output_pattern));
    arguments
}

/// The error that the exit of the segmenting process stands for, or `None`
/// where the process ended with exit code zero.
pub fn segmenter_failure(exit: ProcessExit) -> (failure: Option<SamplerError>)
    ensures
        failure == exit_failure(exit),
{
    match exit {
        ProcessExit::NotStarted => Some(SamplerError::SegmentationFailed { exit_code: None }),
        ProcessExit::Exited { code: Some(code) } => {
            if code == 0 {
                None
            } else {
                Some(SamplerError::SegmentationFailed { exit_code: Some(code) })
            }
        },
        ProcessExit::Exited { code: None } => Some(
            SamplerError::SegmentationFailed { exit_code: Some(-1) },
        ),
    }
}

/// The segments that a run of the segmenting process produced.
///
/// Unless the process ended with exit code zero the result is
/// `SegmentationFailed`, whatever the expansion holds. Otherwise it is what
/// discovery makes of the expansion: the segment files in the order of the
/// walk, which need not be their numerical order.
pub fn split_into_segments(exit: ProcessExit, expansion: &Expansion) -> (segments: Result<
    Vec<String>,
    SamplerError,
>)
    ensures
        match segments {
            Ok(paths) => segmented(exit, *expansion) == Ok::<Seq<Seq<char>>, SamplerError>(
                texts(paths@),
            ),
            Err(e) => segmented(exit, *expansion) == Err::<Seq<Seq<char>>, SamplerError>(e),
        },
{
    match segmenter_failure(exit) {
        Some(failure) => Err(failure),
        None => get_files(expansion),
    }
}

} // verus!
