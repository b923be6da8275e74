use nojoin_companion::device::{
    plan_microphone, plan_system, resolve_device, silence_chunk_len, DeviceChoice,
    MicrophoneSource, StreamFormat, FALLBACK_SAMPLE_RATE, SILENCE_CHUNK_MS,
};
use nojoin_companion::errors::CaptureStage;
use nojoin_companion::engine::{EngineStep, SegmentEngine};

fn names(list: &[Option<&str>]) -> Vec<Option<String>> {
    list.iter().map(|n| n.map(|s| s.to_string())).collect()
}

#[test]
fn configured_device_is_found_by_exact_name() {
    let devices = names(&[Some("Built-in"), None, Some("USB Mic"), Some("USB Mic")]);
    let choice = resolve_device(&Some("USB Mic".to_string()), &devices, true);
    assert_eq!(choice, DeviceChoice::Named(2));
}

#[test]
fn unknown_name_falls_back_to_the_default() {
    let devices = names(&[Some("Built-in"), Some("USB Mic")]);
    assert_eq!(resolve_device(&Some("usb mic".to_string()), &devices, true), DeviceChoice::Default);
    assert_eq!(resolve_device(&Some("USB".to_string()), &devices, true), DeviceChoice::Default);
    assert_eq!(resolve_device(&Some("Other".to_string()), &devices, false), DeviceChoice::Unavailable);
}

#[test]
fn no_configured_name_means_default() {
    let devices = names(&[Some("Built-in")]);
    assert_eq!(resolve_device(&None, &devices, true), DeviceChoice::Default);
    assert_eq!(resolve_device(&None, &Vec::new(), false), DeviceChoice::Unavailable);
}

#[test]
fn named_device_is_used_even_without_a_default() {
    let devices = names(&[Some("Line In")]);
    assert_eq!(resolve_device(&Some("Line In".to_string()), &devices, false), DeviceChoice::Named(0));
}

#[test]
fn microphone_plan_uses_the_device_format() {
    let format = StreamFormat { channels: 2, sample_rate: 44100 };
    let source = plan_microphone(DeviceChoice::Named(1), Some(format));
    assert_eq!(source, MicrophoneSource::Device { choice: DeviceChoice::Named(1), format });
    assert_eq!(source.sample_rate(), 44100);
    assert!(!source.is_virtual());
    let source = plan_microphone(DeviceChoice::Default, Some(format));
    assert_eq!(source, MicrophoneSource::Device { choice: DeviceChoice::Default, format });
}

#[test]
fn missing_microphone_is_replaced_by_silence() {
    let silence = MicrophoneSource::VirtualSilence { sample_rate: 48000, chunk_len: 4800 };
    assert_eq!(plan_microphone(DeviceChoice::Unavailable, None), silence);
    assert_eq!(
        plan_microphone(DeviceChoice::Unavailable, Some(StreamFormat { channels: 1, sample_rate: 8000 })),
        silence
    );
    assert_eq!(plan_microphone(DeviceChoice::Default, None), silence);
    assert_eq!(plan_microphone(DeviceChoice::Named(0), None), silence);
    assert!(silence.is_virtual());
    assert_eq!(silence.sample_rate(), FALLBACK_SAMPLE_RATE);
}

#[test]
fn missing_output_device_fails_the_run() {
    assert_eq!(plan_system(DeviceChoice::Unavailable), Err(CaptureStage::NoOutputDevice));
    assert_eq!(plan_system(DeviceChoice::Default), Ok(DeviceChoice::Default));
    assert_eq!(plan_system(DeviceChoice::Named(2)), Ok(DeviceChoice::Named(2)));
}

#[test]
fn silence_chunks_last_a_tenth_of_a_second() {
    assert_eq!(SILENCE_CHUNK_MS, 100);
    assert_eq!(silence_chunk_len(48000), 4800);
    assert_eq!(silence_chunk_len(44100), 4410);
    assert_eq!(silence_chunk_len(11025), 1102);
    assert_eq!(silence_chunk_len(0), 0);
    assert_eq!(silence_chunk_len(9), 0);
    assert_eq!(silence_chunk_len(u32::MAX), 429496729);
}

fn blend(mic: f32, system: Option<f32>) -> i64 {
    let mut mixed = mic;
    if let Some(sample) = system {
        mixed += sample;
    }
    (mixed * i16::MAX as f32) as i64
}

#[test]
fn session_without_input_device_writes_silent_segments() {
    let choice = resolve_device(&Some("Gone".to_string()), &Vec::new(), false);
    assert_eq!(choice, DeviceChoice::Unavailable);
    let source = plan_microphone(choice, None);
    let chunk_len = match source {
        MicrophoneSource::VirtualSilence { chunk_len, .. } => chunk_len,
        MicrophoneSource::Device { .. } => panic!("a device was planned"),
    };
    let mut engine: SegmentEngine<f32> = SegmentEngine::new(1, 1, source.sample_rate(), 300);
    assert_eq!(engine.next_step(true, 0), EngineStep::OpenSegment);
    engine.open_segment();
    for _ in 0..3 {
        engine.mix(&vec![0.0; chunk_len], &blend);
    }
    let segment = engine.close_segment().unwrap();
    assert_eq!(segment.sample_rate, 48000);
    assert_eq!(segment.samples, vec![0i16; 14400]);
    let bytes = segment.to_wav().unwrap();
    let mut reader = hound::WavReader::new(std::io::Cursor::new(bytes)).unwrap();
    assert_eq!(reader.spec().sample_rate, 48000);
    assert_eq!(reader.spec().channels, 1);
    assert_eq!(reader.duration(), 14400);
    assert!(reader.samples::<i16>().all(|s| s.unwrap() == 0));
}
