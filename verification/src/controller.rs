//! The run controller's choices: the sampling strategy and the values that
//! configure a run.

use vstd::prelude::*;

verus! {

/// One frame in this many is kept by the sequential sampler.
pub const FRAMES_BETWEEN_EXTRACTED: u64 = 30;

/// The length, in seconds, of the segments of a parallel run.
pub const SEGMENT_DURATION_SECONDS: u64 = 5;

/// Where the segmenting process writes its segments; the placeholder is a
/// zero-padded counter of nine digits.
pub const SEGMENT_OUTPUT_PATTERN: &'static str = "segments/output_%09d.mp4";

/// The glob pattern of the frame files of earlier runs.
pub const FRAME_FILES_PATTERN: &'static str = "frames/*.png";

/// The glob pattern of the segment files.
pub const SEGMENTED_FILES_PATTERN: &'static str = "segments/*.mp4";

/// The prefix of the frame files of an unsegmented sequential run.
pub const FULL_RUN_PREFIX: &'static str = "full";

/// How a run samples its source.
#[derive(Clone, Copy, Debug, PartialEq, Eq, Structural)]
pub enum Strategy {
    /// Decode the whole source in order and keep one frame per interval.
    Sequential,
    /// Seek to one frame per second.
    Seek,
    /// Split the source into segments and sample them concurrently.
    SegmentedParallel,
}

/// The strategy that the two switches of a run select. The parallel switch
/// wins over the seek switch; without either the run is sequential.
pub open spec fn strategy_for(multicore: bool, use_seek: bool) -> Strategy {
    if multicore {
        Strategy::SegmentedParallel
    } else if use_seek {
        Strategy::Seek
    } else {
        Strategy::Sequential
    }
}

/// Chooses the strategy of a run from its two switches.
pub fn select_strategy(multicore: bool, use_seek: bool) -> (strategy: Strategy)
    ensures
        strategy == strategy_for(multicore, use_seek),
{
    if multicore {
        Strategy::SegmentedParallel
    } else if use_seek {
        Strategy::Seek
    } else {
        Strategy::Sequential
    }
}

/// One stage of a run.
#[derive(Clone, Copy, Debug, PartialEq, Eq, Structural)]
pub enum RunStep {
    /// Create the frames and segments directories.
    PrepareDirectories,
    /// Remove the frames and segments that an earlier run left behind.
    CleanStaleOutput,
    /// Sample the source with the chosen strategy.
    Sample { strategy: Strategy },
    /// Remove the segments directory and what it holds.
    RemoveSegments,
}

/// The stages of a run, in the order in which they are carried out.
pub open spec fn stages(multicore: bool, use_seek: bool) -> Seq<RunStep> {
    seq![
        RunStep::PrepareDirectories,
        RunStep::CleanStaleOutput,
        RunStep::Sample { strategy: strategy_for(multicore, use_seek) },
        RunStep::RemoveSegments,
    ]
}

/// Whether a failure of `step` ends the run with an error. A run cannot go
/// on without its directories or without its samples; what cleaning or
/// removing leaves behind is reported and cleaned again by the next run.
pub open spec fn fatal(step: RunStep) -> bool {
    match step {
        RunStep::PrepareDirectories => true,
        RunStep::CleanStaleOutput => false,
        RunStep::Sample { .. } => true,
        RunStep::RemoveSegments => false,
    }
}

/// Lays out a run: output directories first, then the cleanup of stale
/// output, then the sampling pass of the selected strategy, then the
/// removal of the segments.
pub fn run_plan(multicore: bool, use_seek: bool) -> (plan: Vec<RunStep>)
    ensures
        plan@ == stages(multicore, use_seek),
{
    let mut plan: Vec<RunStep> = Vec::new();
    plan.push(RunStep::PrepareDirectories);
    plan.push(RunStep::CleanStaleOutput);
    plan.push(RunStep::Sample { strategy: select_strategy(multicore, use_seek) });
    plan.push(RunStep::RemoveSegments);
    plan
}

/// Whether the run ends with an error when `step` fails.
pub fn is_fatal(step: RunStep) -> (ends_run: bool)
    ensures
        ends_run == fatal(step),
{
    match step {
        RunStep::PrepareDirectories => true,
        RunStep::CleanStaleOutput => false,
        RunStep::Sample { .. } => true,
        RunStep::RemoveSegments => false,
    }
}

} // verus!
