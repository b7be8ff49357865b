//! The parallel segment orchestrator: which sampler works on which segment
//! under which prefix.
//!
//! The caller runs the jobs concurrently and waits for all of them. The
//! jobs share nothing but the output directory, and their prefixes keep
//! their files apart.

use crate::naming::{
    frame_name, lemma_segment_frames_never_collide, segment_prefix, segment_prefix_for,
};
use vstd::prelude::*;

verus! {

/// One sequential sampling pass over one segment.
#[derive(Clone, Debug, PartialEq, Eq)]
pub struct SegmentJob {
    /// The prefix of every frame file of this segment.
    pub prefix: String,
    /// The path of the segment file.
    pub segment: String,
}

/// Whether `jobs` are the jobs for `segments`: one per segment, in the
/// order of the list, the job at position `i` with the prefix `segment-i`.
pub open spec fn jobs_for(jobs: Seq<SegmentJob>, segments: Seq<String>) -> bool {
    &&& jobs.len() == segments.len()
    &&& forall|i: int|
        0 <= i < jobs.len() ==> (#[trigger] jobs[i]).prefix@ == segment_prefix(i as nat)
            && jobs[i].segment@ == segments[i]@
}

/// The jobs of one run never write to the same file: the frame at position
/// `m` of job `i` and the frame at position `n` of job `j` have the same
/// file name only if they are the same frame of the same job, in whatever
/// order the jobs run.
pub proof fn lemma_jobs_write_distinct_files(
    jobs: Seq<SegmentJob>,
    segments: Seq<String>,
    i: int,
    m: nat,
    j: int,
    n: nat,
)
    requires
        jobs_for(jobs, segments),
        0 <= i < jobs.len(),
        0 <= j < jobs.len(),
    ensures
        frame_name(jobs[i].prefix@, m) == frame_name(jobs[j].prefix@, n) <==> (i == j && m == n),
{
    lemma_segment_frames_never_collide(i as nat, m, j as nat, n);
}

/// Gives every segment its job. The ordinal of a segment is its position
/// in the list it came in.
pub fn assign_segments(segments: &Vec<String>) -> (jobs: Vec<SegmentJob>)
    ensures
        jobs_for(jobs@, segments@),
{
    let mut jobs: Vec<SegmentJob> = Vec::new();
    let mut i: usize = 0;
    while i < segments.len()
        invariant
            i <= segments.len(),
            jobs_for(jobs@, segments@.take(i as int)),
        decreases segments.len() - i,
    {
        jobs.push(SegmentJob { prefix: segment_prefix_for(i as u64), segment: segments[i].clone() });
        i = i + 1;
    }
    jobs
}

/// What became of one segment's sampling pass.
#[derive(Clone, Copy, Debug, PartialEq, Eq, Structural)]
pub enum SegmentOutcome {
    Completed,
    Failed,
}

/// The ordinals of the failed passes among `outcomes`, in increasing order.
pub open spec fn failed_ordinals(outcomes: Seq<SegmentOutcome>) -> Seq<usize>
    decreases outcomes.len(),
{
    if outcomes.len() == 0 {
        Seq::empty()
    } else if outcomes.last() == SegmentOutcome::Failed {
        failed_ordinals(outcomes.drop_last()).push((outcomes.len() - 1) as usize)
    } else {
        failed_ordinals(outcomes.drop_last())
    }
}

/// The segments whose pass failed, for the report. A failed segment does
/// not make the run fail: the frames of the other segments stand.
pub fn failed_segments(outcomes: &Vec<SegmentOutcome>) -> (failed: Vec<usize>)
    ensures
        failed@ == failed_ordinals(outcomes@),
{
    let mut failed: Vec<usize> = Vec::new();
    let mut i: usize = 0;
    while i < outcomes.len()
        invariant
            i <= outcomes.len(),
            failed@ == failed_ordinals(outcomes@.take(i as int)),
        decreases outcomes.len() - i,
    {
        assert(outcomes@.take(i + 1).drop_last() =~= outcomes@.take(i as int));
        if outcomes[i] == SegmentOutcome::Failed {
            failed.push(i);
        }
        i = i + 1;
    }
    assert(outcomes@.take(i as int) =~= outcomes@);
    failed
}

} // verus!
