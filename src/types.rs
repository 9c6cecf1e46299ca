use vstd::prelude::*;

verus! {

/// Pixel format tag of 32-bit BGRA frames ('BGRA').
pub const PIXEL_FORMAT_32BGRA: u32 = 0x42475241;

/// Pixel format tag of bi-planar 4:2:0 video-range frames ('420v').
pub const PIXEL_FORMAT_420V: u32 = 0x34323076;

/// Color space tag of Display P3.
pub const COLOR_SPACE_DISPLAY_P3: u32 = 0;

/// Color space tag of sRGB.
pub const COLOR_SPACE_SRGB: u32 = 1;

pub const MIN_WIDTH: u32 = 100;
pub const MAX_WIDTH: u32 = 7680;
pub const MIN_HEIGHT: u32 = 100;
pub const MAX_HEIGHT: u32 = 4320;
pub const MIN_FPS: u32 = 1;
pub const MAX_FPS: u32 = 120;

pub const DEFAULT_WIDTH: u32 = 1920;
pub const DEFAULT_HEIGHT: u32 = 1080;
pub const DEFAULT_FPS: u32 = 30;

/// Kind of sample delivered by the capture stream.
#[derive(Debug, Clone, Copy, PartialEq, Eq, Structural)]
pub enum SCStreamOutputType {
    Screen,
    Audio,
    Microphone,
}

/// Lifecycle state of a capture session.
#[derive(Debug, Clone, Copy, PartialEq, Eq, Structural)]
pub enum RecordingState {
    Idle,
    Starting,
    Recording,
    Stopping,
    Error,
}

/// Scope of a content filter.
#[derive(Debug, Clone, Copy, PartialEq, Eq, Structural)]
pub enum ContentFilterType {
    Display(u32),
    Window(u32),
    Desktop,
    All,
}

#[derive(Debug, Clone, Copy, PartialEq, Eq, Structural)]
pub enum AudioDeviceType {
    Input,
    Output,
    SystemAudio,
    Microphone,
}

/// Outcome of the operating system's capture authorization.
#[derive(Debug, Clone, Copy, PartialEq, Eq, Structural)]
pub enum PermissionStatus {
    Granted,
    Denied,
    NotDetermined,
    Restricted,
}

/// Errors of the capture pipeline.
#[derive(Debug, Clone)]
pub enum SCError {
    PermissionDenied,
    ContentNotFound,
    StreamCreationFailed,
    FilterCreationFailed,
    RecordingFailed,
    InvalidConfiguration,
    EncoderInitFailed,
    AlreadyRecording,
    NotRecording,
    SystemError(String),
}

/// The human-readable text of an error.
pub open spec fn error_message(e: SCError) -> Seq<char> {
    match e {
        SCError::PermissionDenied => "Screen recording permission denied"@,
        SCError::ContentNotFound => "Screen content not found"@,
        SCError::StreamCreationFailed => "Failed to create stream"@,
        SCError::FilterCreationFailed => "Failed to create content filter"@,
        SCError::RecordingFailed => "Recording failed"@,
        SCError::InvalidConfiguration => "Invalid configuration"@,
        SCError::EncoderInitFailed => "Failed to initialize encoder"@,
        SCError::AlreadyRecording => "Already recording"@,
        SCError::NotRecording => "Not currently recording"@,
        SCError::SystemError(m) => "System error: "@ + m@,
    }
}

/// What the user can do about an error.
pub open spec fn error_remediation(e: SCError) -> Seq<char> {
    match e {
        SCError::PermissionDenied => PERMISSION_INSTRUCTIONS@,
        SCError::ContentNotFound => "Try selecting a different screen or window."@,
        SCError::FilterCreationFailed => "Try selecting a different screen or window."@,
        SCError::StreamCreationFailed => "Check the video and audio settings."@,
        SCError::InvalidConfiguration => CONFIGURATION_HINT@,
        SCError::EncoderInitFailed => "Check that the output path can be written."@,
        SCError::AlreadyRecording => "Stop the current recording first."@,
        SCError::NotRecording => "Start a recording first."@,
        SCError::RecordingFailed => "Create a new recorder; this one has failed."@,
        SCError::SystemError(_) => "Check system compatibility."@,
    }
}

/// Where the user grants screen recording permission.
pub const PERMISSION_INSTRUCTIONS: &'static str =
    "Open System Preferences > Security & Privacy > Privacy > Screen Recording and enable permission for this application";

/// The accepted configuration ranges.
pub const CONFIGURATION_HINT: &'static str =
    "Width must be 100-7680, height 100-4320, frame rate 1-120, and the output path non-empty.";

impl SCError {
    /// The error's text.
    pub fn message(&self) -> (r: String)
        ensures
            r@ == error_message(*self),
    {
        match self {
            SCError::PermissionDenied => "Screen recording permission denied".to_owned(),
            SCError::ContentNotFound => "Screen content not found".to_owned(),
            SCError::StreamCreationFailed => "Failed to create stream".to_owned(),
            SCError::FilterCreationFailed => "Failed to create content filter".to_owned(),
            SCError::RecordingFailed => "Recording failed".to_owned(),
            SCError::InvalidConfiguration => "Invalid configuration".to_owned(),
            SCError::EncoderInitFailed => "Failed to initialize encoder".to_owned(),
            SCError::AlreadyRecording => "Already recording".to_owned(),
            SCError::NotRecording => "Not currently recording".to_owned(),
            SCError::SystemError(m) => {
                let mut s = "System error: ".to_owned();
                s.append(m.as_str());
                s
            },
        }
    }

    /// A hint at what the user can do about the error.
    pub fn remediation(&self) -> (r: String)
        ensures
            r@ == error_remediation(*self),
    {
        match self {
            SCError::PermissionDenied => PERMISSION_INSTRUCTIONS.to_owned(),
            SCError::ContentNotFound => "Try selecting a different screen or window.".to_owned(),
            SCError::FilterCreationFailed => "Try selecting a different screen or window.".to_owned(),
            SCError::StreamCreationFailed => "Check the video and audio settings.".to_owned(),
            SCError::InvalidConfiguration => CONFIGURATION_HINT.to_owned(),
            SCError::EncoderInitFailed => "Check that the output path can be written.".to_owned(),
            SCError::AlreadyRecording => "Stop the current recording first.".to_owned(),
            SCError::NotRecording => "Start a recording first.".to_owned(),
            SCError::RecordingFailed => "Create a new recorder; this one has failed.".to_owned(),
            SCError::SystemError(_) => "Check system compatibility.".to_owned(),
        }
    }
}

/// Capture stream settings, as handed to the capture service.
#[derive(Debug)]
pub struct StreamConfiguration {
    pub width: u32,
    pub height: u32,
    pub fps: u32,
    pub shows_cursor: bool,
    pub captures_audio: bool,
    pub pixel_format: u32,
    pub color_space: u32,
}

impl Clone for StreamConfiguration {
    fn clone(&self) -> (r: Self)
        ensures
            r == *self,
    {
        StreamConfiguration { ..*self }
    }
}

impl Default for StreamConfiguration {
    fn default() -> (r: Self)
        ensures
            r.width == DEFAULT_WIDTH,
            r.height == DEFAULT_HEIGHT,
            r.fps == DEFAULT_FPS,
            r.shows_cursor,
            !r.captures_audio,
            r.pixel_format == PIXEL_FORMAT_32BGRA,
            r.color_space == COLOR_SPACE_SRGB,
    {
        StreamConfiguration {
            width: DEFAULT_WIDTH,
            height: DEFAULT_HEIGHT,
            fps: DEFAULT_FPS,
            shows_cursor: true,
            captures_audio: false,
            pixel_format: PIXEL_FORMAT_32BGRA,
            color_space: COLOR_SPACE_SRGB,
        }
    }
}

pub open spec fn dimensions_in_range(width: u32, height: u32) -> bool {
    MIN_WIDTH <= width <= MAX_WIDTH && MIN_HEIGHT <= height <= MAX_HEIGHT
}

pub open spec fn fps_in_range(fps: u32) -> bool {
    MIN_FPS <= fps <= MAX_FPS
}

impl StreamConfiguration {
    /// Whether width, height and frame rate lie in their accepted ranges.
    pub open spec fn is_valid(&self) -> bool {
        dimensions_in_range(self.width, self.height) && fps_in_range(self.fps)
    }
}

/// Accepts a frame size of 100..=7680 by 100..=4320 pixels.
pub fn validate_dimensions(width: u32, height: u32) -> (r: Result<(), SCError>)
    ensures
        r is Ok <==> dimensions_in_range(width, height),
        r matches Err(e) ==> e is InvalidConfiguration,
{
    if width < MIN_WIDTH || width > MAX_WIDTH {
        return Err(SCError::InvalidConfiguration);
    }
    if height < MIN_HEIGHT || height > MAX_HEIGHT {
        return Err(SCError::InvalidConfiguration);
    }
    Ok(())
}

/// Accepts a frame rate of 1..=120 frames per second.
pub fn validate_fps(fps: u32) -> (r: Result<(), SCError>)
    ensures
        r is Ok <==> fps_in_range(fps),
        r matches Err(e) ==> e is InvalidConfiguration,
{
    if fps < MIN_FPS || fps > MAX_FPS {
        return Err(SCError::InvalidConfiguration);
    }
    Ok(())
}

/// A rational media time: `value / timescale` seconds.
#[derive(Debug, Clone, Copy, PartialEq, Eq, Structural)]
pub struct MediaTime {
    pub value: i64,
    pub timescale: i32,
    pub flags: u32,
    pub epoch: i64,
}

/// The duration of one frame at `fps` frames per second.
pub fn create_cmtime_from_fps(fps: u32) -> (r: MediaTime)
    requires
        fps <= i32::MAX,
    ensures
        r.value == 1,
        r.timescale == fps,
        r.flags == 0,
        r.epoch == 0,
{
    MediaTime { value: 1, timescale: fps as i32, flags: 0, epoch: 0 }
}

/// Settings derived for the capture service's stream objects.
pub struct ScreenCaptureKitAPI;

impl ScreenCaptureKitAPI {
    /// The shortest interval between two frames: one frame period.
    pub fn minimum_frame_interval(config: &StreamConfiguration) -> (r: MediaTime)
        requires
            config.is_valid(),
        ensures
            r == (MediaTime { value: 1, timescale: config.fps as i32, flags: 0, epoch: 0 }),
    {
        create_cmtime_from_fps(config.fps)
    }
}

} // verus!
