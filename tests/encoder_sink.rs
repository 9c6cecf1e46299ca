use screencapturekit_rs::sink::{AudioSettings, EncoderSink, SampleOutcome, VideoSettings, AUDIO_FORMAT_AAC};

#[test]
fn first_sample_anchors_session_start() {
    let mut k = EncoderSink::new("/tmp/a.mov".to_string(), 30, true);
    assert_eq!(k.encode_video(5_000, true), SampleOutcome::Written(0));
    assert_eq!(k.session_start, Some(5_000));
    assert_eq!(k.encode_video(8_000, true), SampleOutcome::Written(3_000));
    assert_eq!(k.encode_audio(6_000, true), SampleOutcome::Written(1_000));
    assert_eq!(k.session_start, Some(5_000));
}

#[test]
fn sample_before_session_start_is_dropped() {
    let mut k = EncoderSink::new("/tmp/a.mov".to_string(), 30, true);
    k.encode_video(1_000, true);
    assert_eq!(k.encode_video(999, true), SampleOutcome::Dropped);
    assert_eq!(k.encode_audio(-5, true), SampleOutcome::Dropped);
    assert_eq!(k.frame_count, 1);
    assert_eq!(k.dropped_video, 1);
    assert_eq!(k.dropped_audio, 1);
}

#[test]
fn backpressure_drops_and_counts() {
    let mut k = EncoderSink::new("/tmp/a.mov".to_string(), 30, false);
    assert_eq!(k.encode_video(0, false), SampleOutcome::Dropped);
    assert_eq!(k.session_start, Some(0));
    assert_eq!(k.dropped_video, 1);
    assert_eq!(k.frame_count, 0);
    assert_eq!(k.encode_audio(0, true), SampleOutcome::Ignored);
}

#[test]
fn finalize_twice_returns_same_path() {
    let mut k = EncoderSink::new("/tmp/out.mov".to_string(), 30, true);
    k.encode_video(0, true);
    let r1 = k.finalize();
    let r2 = k.finalize();
    assert_eq!(r1.path, "/tmp/out.mov");
    assert_eq!(r2.path, r1.path);
    assert!(r1.closed_now);
    assert!(!r2.closed_now);
    assert_eq!(r2.frame_count, 1);
    assert_eq!(k.encode_video(10, true), SampleOutcome::Ignored);
}

#[test]
fn finalize_with_no_samples() {
    let mut k = EncoderSink::new("/tmp/empty.mov".to_string(), 24, false);
    let r = k.finalize();
    assert_eq!(r.frame_count, 0);
    assert_eq!(r.sample_count, 0);
    assert_eq!(r.estimated_duration_ms, 0);
    assert!(r.closed_now);
}

#[test]
fn estimated_duration_is_frames_over_fps() {
    let mut k = EncoderSink::new("/tmp/d.mov".to_string(), 30, false);
    for i in 0..45i64 {
        k.encode_video(i, true);
    }
    assert_eq!(k.finalize().estimated_duration_ms, 1500);
}

#[test]
fn extreme_timestamps_do_not_overflow() {
    let mut k = EncoderSink::new("/tmp/x.mov".to_string(), 1, false);
    k.encode_video(i64::MIN, true);
    assert_eq!(k.encode_video(i64::MAX, true), SampleOutcome::Written(u64::MAX));
}

#[test]
fn video_settings_from_frame() {
    let v = VideoSettings::for_frame(1920, 1080, 30);
    assert_eq!(v.average_bit_rate, 16_588_800);
    assert_eq!(v.max_key_frame_interval, 60);
    let big = VideoSettings::for_frame(7680, 4320, 120);
    assert_eq!(big.average_bit_rate, 265_420_800);
    assert_eq!(big.max_key_frame_interval, 240);
}

#[test]
fn audio_settings_are_aac_stereo() {
    let a = AudioSettings::standard();
    assert_eq!(a.format_id, AUDIO_FORMAT_AAC);
    assert_eq!(a.format_id, 0x61616320);
    assert_eq!((a.sample_rate, a.channels, a.bit_rate), (48000, 2, 128000));
}
