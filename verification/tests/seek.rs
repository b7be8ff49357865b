use frame_sampler::error::SamplerError;
use frame_sampler::seek::{decode_frames_seeking, DecoderSession, SeekFault, SeekOutcome};

fn session_of(whole_seconds: u64, frames_per_second: u64) -> DecoderSession {
    DecoderSession { width: 2, height: 1, whole_seconds, frames_per_second }
}

#[test]
fn test_decode_frames_seeking_invalid_video_path() {
    let result = decode_frames_seeking(None);
    assert!(result.is_err());
    assert_eq!(result, Err(SamplerError::CannotOpen));
}

#[test]
fn seek_targets_are_second_times_rate() {
    let mut sampler = decode_frames_seeking(Some(session_of(4, 30))).unwrap();
    let mut targets = Vec::new();
    while let Some(target) = sampler.target() {
        targets.push(target);
        sampler.record(SeekOutcome::Frame { pixels: vec![0u8; 6] });
    }
    assert_eq!(targets, vec![0u128, 30, 60, 90]);
    assert_eq!(sampler.frame_count(), 4);
}

#[test]
fn seek_target_does_not_wrap() {
    let mut sampler = decode_frames_seeking(Some(session_of(u64::MAX, u64::MAX))).unwrap();
    assert_eq!(sampler.target(), Some(0));
    sampler.record(SeekOutcome::SeekFailed);
    assert_eq!(sampler.target(), Some(u64::MAX as u128));
    sampler.record(SeekOutcome::SeekFailed);
    assert_eq!(sampler.target(), Some(2 * (u64::MAX as u128)));
}

#[test]
fn a_source_without_duration_has_no_target() {
    let mut sampler = decode_frames_seeking(Some(session_of(0, 30))).unwrap();
    assert_eq!(sampler.target(), None);
    assert_eq!(sampler.record(SeekOutcome::Frame { pixels: vec![1, 2, 3, 4, 5, 6] }), None);
    assert_eq!(sampler.frame_count(), 0);
}

#[test]
fn failed_seconds_are_skipped_and_numbering_stays_gap_free() {
    let mut sampler = decode_frames_seeking(Some(session_of(5, 25))).unwrap();
    assert_eq!(sampler.record(SeekOutcome::SeekFailed), Some(SeekFault::SeekFailed));
    assert_eq!(sampler.record(SeekOutcome::Frame { pixels: vec![1; 6] }), None);
    assert_eq!(sampler.record(SeekOutcome::DecodeFailed), Some(SeekFault::DecodeFailed));
    assert_eq!(sampler.record(SeekOutcome::NoBuffer), Some(SeekFault::NoBuffer));
    assert_eq!(sampler.target(), Some(100));
    assert_eq!(sampler.record(SeekOutcome::Frame { pixels: vec![2; 6] }), None);
    assert_eq!(sampler.target(), None);
    assert_eq!(sampler.frame_count(), 2);
    assert_eq!(sampler.frame_file(0), "0.png");
    assert_eq!(sampler.frame_file(1), "1.png");
    assert_eq!(sampler.frame_pixels(0), &vec![1u8; 6]);
    assert_eq!(sampler.frame_pixels(1), &vec![2u8; 6]);
}

#[test]
fn the_session_is_kept() {
    let sampler = decode_frames_seeking(Some(session_of(120, 30))).unwrap();
    assert_eq!(sampler.session(), session_of(120, 30));
}

#[test]
fn accumulated_frames_are_encoded_with_the_session_dimensions() {
    let mut sampler = decode_frames_seeking(Some(session_of(3, 30))).unwrap();
    sampler.record(SeekOutcome::Frame { pixels: vec![10, 20, 30, 40, 50, 60] });
    sampler.record(SeekOutcome::Frame { pixels: vec![1, 2, 3] });
    sampler.record(SeekOutcome::SeekFailed);
    assert_eq!(sampler.frame_count(), 2);

    let bytes = sampler.frame_image(0).unwrap();
    let decoded = image::load_from_memory(&bytes).unwrap().to_rgb8();
    assert_eq!((decoded.width(), decoded.height()), (2, 1));
    assert_eq!(decoded.into_raw(), vec![10, 20, 30, 40, 50, 60]);

    assert_eq!(
        sampler.frame_image(1),
        Err(SamplerError::BufferSizeMismatch { expected: 6, actual: 3 })
    );
}

#[test]
fn one_frame_per_whole_second_when_every_seek_succeeds() {
    let mut sampler = decode_frames_seeking(Some(session_of(120, 30))).unwrap();
    let mut seconds = 0u128;
    while let Some(target) = sampler.target() {
        assert_eq!(target, seconds * 30);
        sampler.record(SeekOutcome::Frame { pixels: vec![0; 6] });
        seconds += 1;
    }
    assert_eq!(seconds, 120);
    assert_eq!(sampler.frame_count(), 120);
    assert_eq!(sampler.frame_file(119), "119.png");
}
