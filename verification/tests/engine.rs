use nojoin_companion::engine::{
    EngineStep, SegmentEngine, MAX_SEGMENT_DURATION_SECS, MICROPHONE_TIMEOUT_MS,
};
use nojoin_companion::mixer::{clip_sample, mix_chunk};

fn blend(mic: f32, system: Option<f32>) -> i64 {
    let mut mixed = mic;
    if let Some(sample) = system {
        mixed += sample;
    }
    (mixed * i16::MAX as f32) as i64
}

#[test]
fn clip_keeps_samples_within_the_peak() {
    assert_eq!(clip_sample(0), 0);
    assert_eq!(clip_sample(32767), 32767);
    assert_eq!(clip_sample(32768), 32767);
    assert_eq!(clip_sample(-32767), -32767);
    assert_eq!(clip_sample(-32768), -32767);
    assert_eq!(clip_sample(i64::MAX), 32767);
    assert_eq!(clip_sample(i64::MIN), -32767);
    assert_eq!(clip_sample(-123), -123);
}

#[test]
fn mixing_adds_system_audio_where_there_is_some() {
    let mic = vec![0.5f32, 0.25, -0.5, 0.0];
    let mut system = vec![0.25f32, 0.25];
    let pcm = mix_chunk(&mic, &mut system, &blend);
    assert_eq!(pcm, vec![24575, 16383, -16383, 0]);
    assert!(system.is_empty());
}

#[test]
fn mixing_leaves_unused_system_audio_buffered() {
    let mic = vec![0.0f32, 0.0];
    let mut system = vec![0.5f32, -0.5, 0.125, 0.25];
    let pcm = mix_chunk(&mic, &mut system, &blend);
    assert_eq!(pcm, vec![16383, -16383]);
    assert_eq!(system, vec![0.125, 0.25]);
}

#[test]
fn saturated_channels_stay_in_range() {
    let mic = vec![1.0f32, -1.0, f32::MAX, f32::MIN, f32::INFINITY, f32::NEG_INFINITY, f32::NAN];
    let mut system = vec![1.0f32, -1.0, f32::MAX, f32::MIN, 1.0, -1.0, 0.0];
    let pcm = mix_chunk(&mic, &mut system, &blend);
    assert_eq!(pcm, vec![32767, -32767, 32767, -32767, 32767, -32767, 0]);
}

#[test]
fn engine_steps_follow_flag_and_clock() {
    let mut engine: SegmentEngine<f32> = SegmentEngine::new(9, 1, 48000, MAX_SEGMENT_DURATION_SECS);
    assert_eq!(MAX_SEGMENT_DURATION_SECS, 300);
    assert_eq!(MICROPHONE_TIMEOUT_MS, 500);
    assert_eq!(engine.next_step(false, 0), EngineStep::Exit);
    assert_eq!(engine.next_step(true, 0), EngineStep::OpenSegment);
    engine.open_segment();
    assert!(engine.is_open());
    assert_eq!(engine.next_step(true, 0), EngineStep::AwaitMicrophone);
    assert_eq!(engine.next_step(true, 299), EngineStep::AwaitMicrophone);
    assert_eq!(engine.next_step(true, 300), EngineStep::CloseSegment);
    assert_eq!(engine.next_step(false, 10), EngineStep::CloseSegment);
    let segment = engine.close_segment().unwrap();
    assert_eq!(segment.sequence, 1);
    assert!(segment.samples.is_empty());
    assert_eq!(engine.next_step(true, 0), EngineStep::OpenSegment);
    assert_eq!(engine.next_step(false, 0), EngineStep::Exit);
}

#[test]
fn engine_numbers_segments_and_loses_no_sample() {
    let mut engine: SegmentEngine<f32> = SegmentEngine::new(12, 4, 44100, 300);
    engine.open_segment();
    engine.push_system(&vec![0.5, 0.5, 0.5]);
    engine.mix(&vec![0.0, 0.0], &blend);
    assert_eq!(engine.pending_len(), 2);
    assert_eq!(engine.buffered_len(), 1);
    engine.mix(&vec![0.25, 0.25], &blend);
    assert_eq!(engine.buffered_len(), 0);
    let first = engine.close_segment().unwrap();
    assert_eq!(first.recording_id, 12);
    assert_eq!(first.sequence, 4);
    assert_eq!(first.sample_rate, 44100);
    assert_eq!(first.samples, vec![16383, 16383, 24575, 8191]);
    assert_eq!(engine.sequence(), 5);
    assert!(!engine.is_open());
    assert!(engine.close_segment().is_none());
    assert_eq!(engine.sequence(), 5);

    engine.open_segment();
    engine.mix(&vec![-1.0, 1.0, 0.0], &blend);
    let second = engine.close_segment().unwrap();
    assert_eq!(second.sequence, 5);
    assert_eq!(second.samples, vec![-32767, 32767, 0]);
    assert_eq!(engine.sequence(), 6);
    assert_eq!(first.samples.len() + second.samples.len(), 7);
}

#[test]
fn engine_ignores_chunks_without_an_open_segment() {
    let mut engine: SegmentEngine<f32> = SegmentEngine::new(1, 1, 48000, 300);
    engine.push_system(&vec![0.5]);
    engine.mix(&vec![0.1, 0.2], &blend);
    assert_eq!(engine.pending_len(), 0);
    assert_eq!(engine.buffered_len(), 1);
}
