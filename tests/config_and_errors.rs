use screencapturekit_rs::config::{AudioDevice, RecordingConfiguration};
use screencapturekit_rs::permissions::{PermissionHelpers, PermissionManager};
use screencapturekit_rs::transcription::{TranscriptionFormat, TranscriptionManager, TranscriptionService};
use screencapturekit_rs::types::{
    create_cmtime_from_fps, validate_dimensions, validate_fps, PermissionStatus, SCError,
    ScreenCaptureKitAPI, StreamConfiguration, PERMISSION_INSTRUCTIONS, PIXEL_FORMAT_32BGRA,
    COLOR_SPACE_SRGB,
};

#[test]
fn dimension_bounds() {
    assert!(validate_dimensions(100, 100).is_ok());
    assert!(validate_dimensions(7680, 4320).is_ok());
    assert!(matches!(validate_dimensions(99, 100), Err(SCError::InvalidConfiguration)));
    assert!(matches!(validate_dimensions(7681, 1080), Err(SCError::InvalidConfiguration)));
    assert!(matches!(validate_dimensions(1920, 99), Err(SCError::InvalidConfiguration)));
    assert!(matches!(validate_dimensions(1920, 4321), Err(SCError::InvalidConfiguration)));
}

#[test]
fn fps_bounds() {
    assert!(matches!(validate_fps(0), Err(SCError::InvalidConfiguration)));
    assert!(validate_fps(1).is_ok());
    assert!(validate_fps(120).is_ok());
    assert!(matches!(validate_fps(121), Err(SCError::InvalidConfiguration)));
}

#[test]
fn configuration_defaults() {
    let c = RecordingConfiguration::new("/tmp/a.mov".to_string()).validate().unwrap();
    assert_eq!((c.width, c.height, c.fps), (1920, 1080, 30));
    assert!(c.shows_cursor);
    assert!(!c.captures_audio);
    assert_eq!(c.pixel_format, PIXEL_FORMAT_32BGRA);
    assert_eq!(c.color_space, COLOR_SPACE_SRGB);
    let d = StreamConfiguration::default();
    assert_eq!((d.width, d.height, d.fps, d.pixel_format), (1920, 1080, 30, 0x42475241));
}

#[test]
fn configuration_rejections() {
    assert!(matches!(RecordingConfiguration::new(String::new()).validate(), Err(SCError::InvalidConfiguration)));
    let mut c = RecordingConfiguration::new("/tmp/a.mov".to_string());
    c.width = Some(50);
    assert!(matches!(c.validate(), Err(SCError::InvalidConfiguration)));
    c.width = Some(7680);
    c.height = Some(4320);
    c.fps = Some(120);
    c.show_cursor = Some(false);
    c.capture_audio = Some(true);
    let s = c.validate().unwrap();
    assert_eq!((s.width, s.height, s.fps, s.shows_cursor, s.captures_audio), (7680, 4320, 120, false, true));
    c.fps = Some(0);
    assert!(matches!(c.validate(), Err(SCError::InvalidConfiguration)));
}

#[test]
fn audio_device_must_be_listed() {
    let devices = vec![
        AudioDevice { id: "mic-1".to_string(), name: "Built-in".to_string(), device_type: "microphone".to_string() },
        AudioDevice { id: "spk-1".to_string(), name: "Speakers".to_string(), device_type: "speaker".to_string() },
    ];
    let mut c = RecordingConfiguration::new("/tmp/a.mov".to_string());
    assert!(c.validate_audio_device(&devices).is_ok());
    c.audio_device_id = Some("spk-1".to_string());
    assert!(c.validate_audio_device(&devices).is_ok());
    c.audio_device_id = Some("usb-9".to_string());
    assert!(matches!(c.validate_audio_device(&devices), Err(SCError::InvalidConfiguration)));
    assert!(matches!(c.validate_audio_device(&vec![]), Err(SCError::InvalidConfiguration)));
}

#[test]
fn frame_interval_is_one_frame_period() {
    let t = create_cmtime_from_fps(60);
    assert_eq!((t.value, t.timescale, t.flags, t.epoch), (1, 60, 0, 0));
    let c = StreamConfiguration { fps: 24, ..StreamConfiguration::default() };
    assert_eq!(ScreenCaptureKitAPI::minimum_frame_interval(&c).timescale, 24);
}

#[test]
fn permission_gate_decisions() {
    assert_eq!(PermissionHelpers::status_of(true), PermissionStatus::Granted);
    assert_eq!(PermissionHelpers::status_of(false), PermissionStatus::Denied);
    assert!(!PermissionManager::needs_request(PermissionStatus::Granted));
    assert!(PermissionManager::needs_request(PermissionStatus::NotDetermined));
    assert!(PermissionManager::ensure_permission(PermissionStatus::Granted, None).is_ok());
    assert!(PermissionManager::ensure_permission(PermissionStatus::Denied, Some(PermissionStatus::Granted)).is_ok());
    assert!(matches!(PermissionManager::ensure_permission(PermissionStatus::Denied, Some(PermissionStatus::Denied)), Err(SCError::PermissionDenied)));
    assert!(matches!(PermissionManager::ensure_permission(PermissionStatus::NotDetermined, None), Err(SCError::PermissionDenied)));
    assert!(PermissionManager::can_request(PermissionStatus::Denied));
    assert!(!PermissionManager::can_request(PermissionStatus::Restricted));
}

#[test]
fn error_messages_and_hints() {
    let cases = [
        (SCError::PermissionDenied, "Screen recording permission denied"),
        (SCError::ContentNotFound, "Screen content not found"),
        (SCError::StreamCreationFailed, "Failed to create stream"),
        (SCError::FilterCreationFailed, "Failed to create content filter"),
        (SCError::RecordingFailed, "Recording failed"),
        (SCError::InvalidConfiguration, "Invalid configuration"),
        (SCError::EncoderInitFailed, "Failed to initialize encoder"),
        (SCError::AlreadyRecording, "Already recording"),
        (SCError::NotRecording, "Not currently recording"),
    ];
    for (e, text) in cases.iter() {
        assert_eq!(e.message(), *text);
        assert!(!e.remediation().is_empty());
    }
    assert_eq!(SCError::SystemError("disk full".to_string()).message(), "System error: disk full");
    assert_eq!(SCError::PermissionDenied.remediation(), PERMISSION_INSTRUCTIONS);
    assert!(SCError::PermissionDenied.remediation().contains("Screen Recording"));
}

#[test]
fn transcription_defaults() {
    let c = TranscriptionManager::default_config();
    assert_eq!(c.service, TranscriptionService::Local);
    assert_eq!(c.language.as_deref(), Some("en"));
    assert_eq!(c.output_format, TranscriptionFormat::Text);
    assert!(c.include_timestamps);
    assert!(!c.include_speaker_labels);
    assert!(c.api_key.is_none());
    let m = TranscriptionManager::new(c);
    assert_eq!(m.config.service, TranscriptionService::Local);
    assert_eq!(
        TranscriptionManager::get_available_services(),
        vec![
            TranscriptionService::Local,
            TranscriptionService::OpenAIWhisper,
            TranscriptionService::GoogleSpeechToText,
            TranscriptionService::AzureSpeechService,
            TranscriptionService::AWSTranscribe,
        ]
    );
}

#[test]
fn capture_service_errors_get_recovery_steps() {
    assert_eq!(
        PermissionManager::handle_screencapturekit_error("user denied access"),
        "Error: user denied access | Recovery: Permission issue detected. Please check screen recording permissions."
    );
    assert_eq!(
        PermissionManager::handle_screencapturekit_error("invalid filter"),
        "Error: invalid filter | Recovery: Content filter issue. Try selecting a different screen or window."
    );
    assert_eq!(
        PermissionManager::handle_screencapturekit_error("stream failed"),
        "Error: stream failed | Recovery: Stream configuration issue. Check video/audio settings."
    );
    assert_eq!(
        PermissionManager::handle_screencapturekit_error("delegate gone"),
        "Error: delegate gone | Recovery: Delegate issue. This is likely an internal error."
    );
    assert_eq!(
        PermissionManager::handle_screencapturekit_error("Permission"),
        "Error: Permission | Recovery: Unknown ScreenCaptureKit error. Check system compatibility."
    );
    assert_eq!(
        PermissionManager::handle_screencapturekit_error(""),
        "Error:  | Recovery: Unknown ScreenCaptureKit error. Check system compatibility."
    );
}
