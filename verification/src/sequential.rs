//! The sequential sampler: decode in order, keep every K-th position.
//!
//! The caller owns the decoder. For each result that the decoder hands
//! out, in decode order, it tells the sampler what came back and performs
//! the action that the sampler answers with. Only one frame is in flight at
//! any time.

use crate::error::{MissingPath, SamplerError};
use crate::naming::{frame_file_name, frame_name};
use vstd::arithmetic::div_mod::{lemma_fundamental_div_mod, lemma_fundamental_div_mod_converse};
use vstd::prelude::*;
use vstd::string::StringExecFns;

verus! {

/// What the decoder returned for one position of the stream.
#[derive(Clone, Copy, Debug, PartialEq, Eq, Structural)]
pub enum Decoded {
    /// A frame whose pixels can be read as one contiguous buffer.
    Frame,
    /// A frame whose pixels cannot be read as one contiguous buffer.
    NoBuffer,
    /// A decode error other than the end of the stream.
    Failed,
    /// The decoder signalled that the stream is exhausted.
    Exhausted,
}

/// Why one position of the stream produced no file.
#[derive(Clone, Copy, Debug, PartialEq, Eq, Structural)]
pub enum FrameFault {
    /// The decoder failed on this position.
    DecodeError,
    /// The frame at a kept position had no contiguous buffer.
    NoBuffer,
}

/// What the caller does with the decoder's latest result.
#[derive(Clone, Debug, PartialEq, Eq)]
pub enum FrameAction {
    /// Encode the frame and write it under this file name in the output
    /// directory.
    Write { name: String },
    /// Drop the frame without reading its pixels.
    Discard,
    /// Report the fault and go on with the next position.
    Report { fault: FrameFault },
    /// Stop decoding: the pass has ended successfully.
    Finish,
}

/// The mathematical value of a [`FrameAction`].
pub enum FrameActionModel {
    Write { name: Seq<char> },
    Discard,
    Report { fault: FrameFault },
    Finish,
}

impl View for FrameAction {
    type V = FrameActionModel;

    open spec fn view(&self) -> FrameActionModel {
        match *self {
            FrameAction::Write { name } => FrameActionModel::Write { name: name@ },
            FrameAction::Discard => FrameActionModel::Discard,
            FrameAction::Report { fault } => FrameActionModel::Report { fault },
            FrameAction::Finish => FrameActionModel::Finish,
        }
    }
}

/// The mathematical state of a sequential sampler.
pub struct SamplerModel {
    /// The prefix of every file name that this sampler hands out.
    pub prefix: Seq<char>,
    /// K: one position in K is kept.
    pub interval: nat,
    /// How many decoder results have been consumed.
    pub position: nat,
    /// Whether the end of the stream has been seen.
    pub finished: bool,
}

impl SamplerModel {
    /// A sampler that has consumed nothing yet.
    pub open spec fn start(prefix: Seq<char>, interval: nat) -> SamplerModel {
        SamplerModel { prefix, interval, position: 0, finished: false }
    }

    pub open spec fn valid(self) -> bool {
        self.interval > 0
    }

    /// Whether the current position is one of those that are kept.
    pub open spec fn keeps(self) -> bool {
        self.position % self.interval == 0
    }

    /// The action that answers `event` in this state.
    pub open spec fn action(self, event: Decoded) -> FrameActionModel {
        if self.finished {
            FrameActionModel::Finish
        } else {
            match event {
                Decoded::Exhausted => FrameActionModel::Finish,
                Decoded::Failed => FrameActionModel::Report { fault: FrameFault::DecodeError },
                Decoded::Frame => if self.keeps() {
                    FrameActionModel::Write { name: frame_name(self.prefix, self.position) }
                } else {
                    FrameActionModel::Discard
                },
                Decoded::NoBuffer => if self.keeps() {
                    FrameActionModel::Report { fault: FrameFault::NoBuffer }
                } else {
                    FrameActionModel::Discard
                },
            }
        }
    }

    /// The state that follows `event`. Every result of the decoder takes one
    /// position, a failed one too; the end of the stream takes none.
    pub open spec fn after(self, event: Decoded) -> SamplerModel {
        if self.finished {
            self
        } else if event == Decoded::Exhausted {
            SamplerModel { finished: true, ..self }
        } else {
            SamplerModel { position: self.position + 1, ..self }
        }
    }

    /// The state after a whole sequence of events.
    pub open spec fn after_all(self, events: Seq<Decoded>) -> SamplerModel
        decreases events.len(),
    {
        if events.len() == 0 {
            self
        } else {
            self.after_all(events.drop_last()).after(events.last())
        }
    }

    /// The names of the files written while consuming `events`, in the
    /// order in which they are written.
    pub open spec fn written(self, events: Seq<Decoded>) -> Seq<Seq<char>>
        decreases events.len(),
    {
        if events.len() == 0 {
            Seq::empty()
        } else {
            let before = self.written(events.drop_last());
            match self.after_all(events.drop_last()).action(events.last()) {
                FrameActionModel::Write { name } => before.push(name),
                _ => before,
            }
        }
    }
}

impl SamplerModel {
    /// The positions of the frames written while consuming `events`, in the
    /// order in which they are written.
    pub open spec fn written_positions(self, events: Seq<Decoded>) -> Seq<nat>
        decreases events.len(),
    {
        if events.len() == 0 {
            Seq::empty()
        } else {
            let before = self.written_positions(events.drop_last());
            let state = self.after_all(events.drop_last());
            match state.action(events.last()) {
                FrameActionModel::Write { .. } => before.push(state.position),
                _ => before,
            }
        }
    }
}

/// Whatever the decoder returns, in whatever order: every file that a
/// sampler writes is named after the position of its frame, that position
/// is a multiple of the interval, and the positions strictly increase from
/// one written file to the next.
pub proof fn lemma_written_positions(start: SamplerModel, events: Seq<Decoded>)
    requires
        start.valid(),
    ensures
        ({
            let end = start.after_all(events);
            let names = start.written(events);
            let positions = start.written_positions(events);
            &&& end.prefix == start.prefix
            &&& end.interval == start.interval
            &&& start.position <= end.position
            &&& names.len() == positions.len()
            &&& forall|i: int|
                0 <= i < positions.len() ==> {
                    &&& names[i] == frame_name(start.prefix, #[trigger] positions[i])
                    &&& positions[i] % start.interval == 0
                    &&& start.position <= positions[i] < end.position
                }
            &&& forall|i: int, j: int|
                0 <= i < j < positions.len() ==> positions[i] < positions[j]
        }),
    decreases events.len(),
{
    if events.len() > 0 {
        lemma_written_positions(start, events.drop_last());
    }
}

/// A stream of `length` readable frames.
pub open spec fn frames(length: nat) -> Seq<Decoded> {
    Seq::new(length, |i: int| Decoded::Frame)
}

/// `length / interval`, rounded up.
pub open spec fn sampled_count(length: nat, interval: nat) -> nat
    recommends
        interval > 0,
{
    (length + interval - 1) as nat / interval
}

/// The position of the `i`-th kept frame: the `i`-th multiple of the
/// interval.
pub open spec fn kept_position(i: int, interval: nat) -> nat {
    (i * interval) as nat
}

/// How the rounded-up quotient grows when the stream gets one frame longer.
proof fn lemma_sampled_count_step(length: nat, interval: nat)
    requires
        interval > 0,
    ensures
        length % interval == 0 ==> sampled_count(length, interval) * interval == length
            && sampled_count(length + 1, interval) == sampled_count(length, interval) + 1,
        length % interval != 0 ==> sampled_count(length + 1, interval) == sampled_count(
            length,
            interval,
        ),
{
    let k = interval as int;
    let n = length as int;
    let q = n / k;
    let r = n % k;
    lemma_fundamental_div_mod(n, k);
    assert(k * q == q * k) by (nonlinear_arith);
    assert((q + 1) * k == q * k + k) by (nonlinear_arith);
    if r == 0 {
        lemma_fundamental_div_mod_converse(n + k - 1, k, q, k - 1);
        lemma_fundamental_div_mod_converse(n + k, k, q + 1, 0);
    } else {
        lemma_fundamental_div_mod_converse(n + k - 1, k, q + 1, r - 1);
        lemma_fundamental_div_mod_converse(n + k, k, q + 1, r);
    }
}

/// The files written for a stream of readable frames that has not ended yet.
proof fn lemma_frames_written(prefix: Seq<char>, interval: nat, length: nat)
    requires
        interval > 0,
    ensures
        SamplerModel::start(prefix, interval).after_all(frames(length)) == (SamplerModel {
            prefix,
            interval,
            position: length,
            finished: false,
        }),
        SamplerModel::start(prefix, interval).written(frames(length)) == Seq::new(
            sampled_count(length, interval),
            |i: int| frame_name(prefix, kept_position(i, interval)),
        ),
    decreases length,
{
    if length == 0 {
        assert(sampled_count(0, interval) == 0) by {
            lemma_fundamental_div_mod_converse(interval - 1, interval as int, 0, interval - 1);
        }
    } else {
        let shorter = (length - 1) as nat;
        lemma_frames_written(prefix, interval, shorter);
        lemma_sampled_count_step(shorter, interval);
        assert(frames(length).drop_last() =~= frames(shorter));
    }
}

/// For every interval K and every stream of L readable frames followed by
/// the end-of-stream signal, the sampler writes exactly L / K (rounded up)
/// files, and the i-th of them is named after position i * K: the indices
/// are the multiples of K below L, in strictly increasing order.
pub proof fn lemma_sequential_sampling(prefix: Seq<char>, interval: nat, length: nat)
    requires
        interval > 0,
    ensures
        SamplerModel::start(prefix, interval).written(frames(length).push(Decoded::Exhausted))
            == Seq::new(
            sampled_count(length, interval),
            |i: int| frame_name(prefix, kept_position(i, interval)),
        ),
        forall|i: int, j: int|
            0 <= i < j < sampled_count(length, interval) ==> #[trigger] kept_position(i, interval)
                < #[trigger] kept_position(j, interval) < length,
{
    let events = frames(length).push(Decoded::Exhausted);
    lemma_frames_written(prefix, interval, length);
    assert(events.drop_last() =~= frames(length));
    let count = sampled_count(length, interval) as int;
    let k = interval as int;
    assert forall|i: int, j: int| 0 <= i < j < count implies #[trigger] kept_position(i, interval)
        < #[trigger] kept_position(j, interval) < length by {
        lemma_fundamental_div_mod(length + k - 1, k);
        assert(0 <= i * k < j * k && j * k <= (count - 1) * k) by (nonlinear_arith)
            requires
                0 <= i < j < count,
                k > 0,
        ;
        assert((count - 1) * k == k * count - k) by (nonlinear_arith);
    }
}

/// The sequential sampler's state between two results of the decoder.
#[derive(Debug, PartialEq, Eq)]
pub struct SequentialSampler {
    prefix: String,
    interval: u64,
    position: u64,
    finished: bool,
}

impl View for SequentialSampler {
    type V = SamplerModel;

    closed spec fn view(&self) -> SamplerModel {
        SamplerModel {
            prefix: self.prefix@,
            interval: self.interval as nat,
            position: self.position as nat,
            finished: self.finished,
        }
    }
}

impl SequentialSampler {
    /// A sampler always has a positive interval.
    #[verifier::type_invariant]
    spec fn well_formed(self) -> bool {
        self.interval > 0
    }

    /// How many results of the decoder have been consumed.
    pub fn position(&self) -> (position: u64)
        ensures
            position == self@.position,
    {
        self.position
    }

    /// Whether the end of the stream has been seen.
    pub fn is_finished(&self) -> (finished: bool)
        ensures
            finished == self@.finished,
    {
        self.finished
    }

    /// Consumes the decoder's next result and says what to do with it.
    ///
    /// A result that takes a position can only be consumed while the
    /// position still fits the counter.
    pub fn step(&mut self, event: Decoded) -> (action: FrameAction)
        requires
            !old(self)@.finished && event != Decoded::Exhausted ==> old(self)@.position
                < u64::MAX,
        ensures
            old(self)@.valid(),
            final(self)@ == old(self)@.after(event),
            action@ == old(self)@.action(event),
    {
        proof {
            use_type_invariant(&*self);
        }
        if self.finished {
            return FrameAction::Finish;
        }
        let action = match event {
            Decoded::Exhausted => {
                self.finished = true;
                return FrameAction::Finish;
            },
            Decoded::Failed => FrameAction::Report { fault: FrameFault::DecodeError },
            Decoded::Frame => {
                if self.position % self.interval == 0 {
                    FrameAction::Write { name: frame_file_name(self.prefix.as_str(), self.position) }
                } else {
                    FrameAction::Discard
                }
            },
            Decoded::NoBuffer => {
                if self.position % self.interval == 0 {
                    FrameAction::Report { fault: FrameFault::NoBuffer }
                } else {
                    FrameAction::Discard
                }
            },
        };
        self.position = self.position + 1;
        action
    }
}

/// Starts a sequential sampling pass that keeps one position in `interval`
/// and names its files after `frame_prefix`.
///
/// The caller says whether the source video and the output directory
/// exist; a missing one ends the pass before the decoder is opened, the
/// source being looked at first.
pub fn decode_frames_dropping(
    frame_prefix: &str,
    interval: u64,
    video_exists: bool,
    frames_dir_exists: bool,
) -> (started: Result<SequentialSampler, SamplerError>)
    requires
        interval > 0,
    ensures
        !video_exists ==> started == Err::<SequentialSampler, SamplerError>(
            SamplerError::InvalidInput { missing: MissingPath::Source },
        ),
        video_exists && !frames_dir_exists ==> started == Err::<SequentialSampler, SamplerError>(
            SamplerError::InvalidInput { missing: MissingPath::OutputDirectory },
        ),
        video_exists && frames_dir_exists ==> started.is_ok() && started.unwrap()@
            == SamplerModel::start(frame_prefix@, interval as nat),
{
    if !video_exists {
        return Err(SamplerError::InvalidInput { missing: MissingPath::Source });
    }
    if !frames_dir_exists {
        return Err(SamplerError::InvalidInput { missing: MissingPath::OutputDirectory });
    }
    Ok(
        SequentialSampler {
            prefix: String::from_str(frame_prefix),
            interval,
            position: 0,
            finished: false,
        },
    )
}

} // verus!
