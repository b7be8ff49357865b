//! The seek sampler: one frame per whole second, found by seeking.
//!
//! The caller owns the decoder. It asks the sampler for the next frame
//! index to seek to, seeks, decodes one frame and reports what happened.
//! Frames are accumulated in memory; once no target is left the caller
//! writes them out, each under the name of its place in the accumulation.

use crate::encoder::{save_rgb_to_image, saved_image};
use crate::error::SamplerError;
use crate::naming::{numbered_file_name, numbered_name};
use vstd::prelude::*;

verus! {

/// What a seek sampler needs to know of an opened source: its dimensions,
/// its duration rounded up to whole seconds and its frame rate rounded up to
/// whole frames per second.
#[derive(Clone, Copy, Debug, PartialEq, Eq, Structural)]
pub struct DecoderSession {
    pub width: u32,
    pub height: u32,
    pub whole_seconds: u64,
    pub frames_per_second: u64,
}

/// What came of seeking to one second's target and decoding one frame there.
#[derive(Clone, Debug, PartialEq, Eq)]
pub enum SeekOutcome {
    /// The decoder produced a frame; these are its pixels. The frame the
    /// decoder landed on is taken as it is.
    Frame { pixels: Vec<u8> },
    /// The decoded frame had no contiguous buffer.
    NoBuffer,
    /// The seek failed.
    SeekFailed,
    /// The seek succeeded and the decode after it failed.
    DecodeFailed,
}

impl SeekOutcome {
    /// The pixels that this outcome adds to the accumulation, if any.
    pub open spec fn frame(self) -> Option<Seq<u8>> {
        match self {
            SeekOutcome::Frame { pixels } => Some(pixels@),
            _ => None,
        }
    }
}

/// Why one second produced no frame.
#[derive(Clone, Copy, Debug, PartialEq, Eq, Structural)]
pub enum SeekFault {
    NoBuffer,
    SeekFailed,
    DecodeFailed,
}

/// The fault to report for an outcome, if it is one.
pub open spec fn fault_of(outcome: SeekOutcome) -> Option<SeekFault> {
    match outcome {
        SeekOutcome::Frame { .. } => None,
        SeekOutcome::NoBuffer => Some(SeekFault::NoBuffer),
        SeekOutcome::SeekFailed => Some(SeekFault::SeekFailed),
        SeekOutcome::DecodeFailed => Some(SeekFault::DecodeFailed),
    }
}

/// The mathematical state of a seek sampler.
pub struct SeekModel {
    /// The session's dimensions, duration and rate.
    pub session: DecoderSession,
    /// The second whose frame is looked for next.
    pub second: nat,
    /// The pixels of the frames decoded so far, in the order of decoding.
    pub frames: Seq<Seq<u8>>,
}

impl SeekModel {
    /// A sampler that has not looked for any frame yet.
    pub open spec fn start(session: DecoderSession) -> SeekModel {
        SeekModel { session, second: 0, frames: Seq::empty() }
    }

    /// No second is counted twice and none yields more than one frame.
    pub open spec fn valid(self) -> bool {
        self.frames.len() <= self.second <= self.session.whole_seconds
    }

    /// The frame index to seek to next: the current second times the frame
    /// rate; `None` once every whole second of the duration was looked at.
    pub open spec fn target(self) -> Option<nat> {
        if self.second < self.session.whole_seconds {
            Some(self.second * (self.session.frames_per_second as nat))
        } else {
            None
        }
    }

    /// The state after the outcome for the current second. A second without
    /// a frame is skipped and leaves no gap in the accumulation.
    pub open spec fn after(self, frame: Option<Seq<u8>>) -> SeekModel {
        if self.second < self.session.whole_seconds {
            SeekModel {
                second: self.second + 1,
                frames: match frame {
                    Some(pixels) => self.frames.push(pixels),
                    None => self.frames,
                },
                ..self
            }
        } else {
            self
        }
    }
}

impl SeekModel {
    /// The state after the outcomes of a whole sequence of seeks, each given
    /// as the pixels it produced, if any.
    pub open spec fn after_all(self, outcomes: Seq<Option<Seq<u8>>>) -> SeekModel
        decreases outcomes.len(),
    {
        if outcomes.len() == 0 {
            self
        } else {
            self.after_all(outcomes.drop_last()).after(outcomes.last())
        }
    }
}

/// The pixels of the outcomes that produced a frame, in their order.
pub open spec fn produced(outcomes: Seq<Option<Seq<u8>>>) -> Seq<Seq<u8>>
    decreases outcomes.len(),
{
    if outcomes.len() == 0 {
        Seq::empty()
    } else {
        match outcomes.last() {
            Some(pixels) => produced(outcomes.drop_last()).push(pixels),
            None => produced(outcomes.drop_last()),
        }
    }
}

/// There are no more produced frames than outcomes.
proof fn lemma_produced_len(outcomes: Seq<Option<Seq<u8>>>)
    ensures
        produced(outcomes).len() <= outcomes.len(),
    decreases outcomes.len(),
{
    if outcomes.len() > 0 {
        lemma_produced_len(outcomes.drop_last());
    }
}

/// Whatever the seeks give, a pass counts one outcome for each whole second
/// of the duration and no more, and accumulates exactly the frames that
/// those outcomes produced, in their order: a second that gave no frame
/// leaves no gap.
pub proof fn lemma_seek_accumulation(session: DecoderSession, outcomes: Seq<Option<Seq<u8>>>)
    ensures
        ({
            let end = SeekModel::start(session).after_all(outcomes);
            let counted = if outcomes.len() <= session.whole_seconds {
                outcomes.len()
            } else {
                session.whole_seconds as nat
            };
            &&& end.valid()
            &&& end.session == session
            &&& end.second == counted
            &&& end.frames == produced(outcomes.take(counted as int))
        }),
    decreases outcomes.len(),
{
    if outcomes.len() > 0 {
        let rest = outcomes.drop_last();
        lemma_seek_accumulation(session, rest);
        let counted = if outcomes.len() <= session.whole_seconds {
            outcomes.len() as int
        } else {
            session.whole_seconds as int
        };
        if rest.len() < session.whole_seconds {
            assert(rest.take(rest.len() as int) =~= rest);
            assert(outcomes.take(counted) =~= outcomes);
        } else {
            assert(outcomes.take(counted) =~= rest.take(counted));
        }
        lemma_produced_len(outcomes.take(counted));
    }
}

/// The seek sampler's state between two seeks.
#[derive(Clone, Debug, PartialEq, Eq)]
pub struct SeekSampler {
    session: DecoderSession,
    second: u64,
    frames: Vec<Vec<u8>>,
}

impl View for SeekSampler {
    type V = SeekModel;

    closed spec fn view(&self) -> SeekModel {
        SeekModel {
            session: self.session,
            second: self.second as nat,
            frames: Seq::new(self.frames@.len(), |i: int| self.frames@[i]@),
        }
    }
}

impl SeekSampler {
    /// The session that this sampler was started on.
    pub fn session(&self) -> (session: DecoderSession)
        ensures
            session == self@.session,
    {
        self.session
    }

    /// The frame index to seek to next, or `None` when the pass is over.
    pub fn target(&self) -> (target: Option<u128>)
        ensures
            match target {
                Some(frame) => self@.target() == Some(frame as nat),
                None => self@.target().is_none(),
            },
    {
        if self.second < self.session.whole_seconds {
            assert((self.second as nat) * (self.session.frames_per_second as nat)
                <= 0xFFFF_FFFF_FFFF_FFFF * 0xFFFF_FFFF_FFFF_FFFF) by (nonlinear_arith)
                requires
                    self.second <= 0xFFFF_FFFF_FFFF_FFFF,
                    self.session.frames_per_second <= 0xFFFF_FFFF_FFFF_FFFF,
            ;
            Some((self.second as u128) * (self.session.frames_per_second as u128))
        } else {
            None
        }
    }

    /// Takes the outcome for the current target and moves on to the next
    /// second. The answer is the fault to report, if the second gave no
    /// frame. Without a pending target nothing changes.
    pub fn record(&mut self, outcome: SeekOutcome) -> (fault: Option<SeekFault>)
        ensures
            final(self)@ == old(self)@.after(outcome.frame()),
            old(self)@.valid() ==> final(self)@.valid(),
            fault == fault_of(outcome),
    {
        let pending = self.second < self.session.whole_seconds;
        if pending {
            self.second = self.second + 1;
        }
        let fault = match outcome {
            SeekOutcome::Frame { pixels } => {
                if pending {
                    self.frames.push(pixels);
                }
                None
            },
            SeekOutcome::NoBuffer => Some(SeekFault::NoBuffer),
            SeekOutcome::SeekFailed => Some(SeekFault::SeekFailed),
            SeekOutcome::DecodeFailed => Some(SeekFault::DecodeFailed),
        };
        assert(self@.frames =~= old(self)@.after(outcome.frame()).frames);
        fault
    }

    /// How many frames have been accumulated.
    pub fn frame_count(&self) -> (count: usize)
        ensures
            count == self@.frames.len(),
    {
        self.frames.len()
    }

    /// The pixels of the `index`-th accumulated frame.
    pub fn frame_pixels(&self, index: usize) -> (pixels: &Vec<u8>)
        requires
            index < self@.frames.len(),
        ensures
            pixels@ == self@.frames[index as int],
    {
        &self.frames[index]
    }

    /// The PNG file of the `index`-th accumulated frame, encoded with the
    /// session's dimensions.
    pub fn frame_image(&self, index: usize) -> (image: Result<Vec<u8>, SamplerError>)
        requires
            index < self@.frames.len(),
        ensures
            match image {
                Ok(bytes) => saved_image(
                    self@.frames[index as int],
                    self@.session.width,
                    self@.session.height,
                ) == Ok::<Seq<u8>, SamplerError>(bytes@),
                Err(e) => saved_image(
                    self@.frames[index as int],
                    self@.session.width,
                    self@.session.height,
                ) == Err::<Seq<u8>, SamplerError>(e),
            },
    {
        save_rgb_to_image(self.frames[index].as_slice(), self.session.width, self.session.height)
    }

    /// The file name of the `index`-th accumulated frame. Frames are
    /// numbered by their place in the accumulation, not by the second they
    /// were looked for at, so the numbering has no gaps.
    pub fn frame_file(&self, index: usize) -> (name: String)
        ensures
            name@ == numbered_name(index as nat),
    {
        numbered_file_name(index as u64)
    }
}

/// Starts a seek sampling pass on an opened source; `None` says that the
/// decoder could not open it, which ends the pass with `CannotOpen`.
pub fn decode_frames_seeking(session: Option<DecoderSession>) -> (started: Result<
    SeekSampler,
    SamplerError,
>)
    ensures
        match session {
            Some(opened) => started.is_ok() && started.unwrap()@ == SeekModel::start(opened)
                && started.unwrap()@.valid(),
            None => started == Err::<SeekSampler, SamplerError>(SamplerError::CannotOpen),
        },
{
    match session {
        Some(opened) => {
            let sampler = SeekSampler { session: opened, second: 0, frames: Vec::new() };
            assert(sampler@.frames =~= Seq::<Seq<u8>>::empty());
            Ok(sampler)
        },
        None => Err(SamplerError::CannotOpen),
    }
}

} // verus!
