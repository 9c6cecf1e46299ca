use vstd::prelude::*;
use crate::types::{
    SCError, StreamConfiguration, dimensions_in_range, fps_in_range, DEFAULT_WIDTH,
    DEFAULT_HEIGHT, DEFAULT_FPS, PIXEL_FORMAT_32BGRA, COLOR_SPACE_SRGB, MIN_WIDTH, MAX_WIDTH,
    MIN_HEIGHT, MAX_HEIGHT, MIN_FPS, MAX_FPS,
};

verus! {

/// An audio device that can be recorded from.
#[derive(Debug)]
pub struct AudioDevice {
    pub id: String,
    pub name: String,
    pub device_type: String,
}

/// What a caller asks of a recording; absent fields take their defaults.
#[derive(Debug)]
pub struct RecordingConfiguration {
    pub width: Option<u32>,
    pub height: Option<u32>,
    pub fps: Option<u32>,
    pub show_cursor: Option<bool>,
    pub capture_audio: Option<bool>,
    pub audio_device_id: Option<String>,
    pub output_path: String,
    pub pixel_format: Option<String>,
    pub color_space: Option<String>,
}

pub open spec fn or_default<T>(o: Option<T>, d: T) -> T {
    match o {
        Some(v) => v,
        None => d,
    }
}

impl RecordingConfiguration {
    /// A configuration with every optional field absent.
    pub fn new(output_path: String) -> (r: Self)
        ensures
            r.output_path == output_path,
            r.width is None,
            r.height is None,
            r.fps is None,
            r.show_cursor is None,
            r.capture_audio is None,
            r.audio_device_id is None,
            r.pixel_format is None,
            r.color_space is None,
    {
        RecordingConfiguration {
            width: None,
            height: None,
            fps: None,
            show_cursor: None,
            capture_audio: None,
            audio_device_id: None,
            output_path,
            pixel_format: None,
            color_space: None,
        }
    }

    pub open spec fn spec_width(&self) -> u32 {
        or_default(self.width, DEFAULT_WIDTH)
    }

    pub open spec fn spec_height(&self) -> u32 {
        or_default(self.height, DEFAULT_HEIGHT)
    }

    pub open spec fn spec_fps(&self) -> u32 {
        or_default(self.fps, DEFAULT_FPS)
    }

    /// The configuration is accepted: a non-empty output path, and the
    /// frame size and rate, with defaults filled in, in their ranges.
    pub open spec fn is_acceptable(&self) -> bool {
        &&& self.output_path@.len() > 0
        &&& dimensions_in_range(self.spec_width(), self.spec_height())
        &&& fps_in_range(self.spec_fps())
    }

    /// The stream settings that this configuration stands for.
    pub open spec fn spec_stream_configuration(&self) -> StreamConfiguration {
        StreamConfiguration {
            width: self.spec_width(),
            height: self.spec_height(),
            fps: self.spec_fps(),
            shows_cursor: or_default(self.show_cursor, true),
            captures_audio: or_default(self.capture_audio, false),
            pixel_format: PIXEL_FORMAT_32BGRA,
            color_space: COLOR_SPACE_SRGB,
        }
    }

    /// The requested audio device, if any, is one of `devices`.
    pub open spec fn audio_device_listed(&self, devices: Seq<AudioDevice>) -> bool {
        match self.audio_device_id {
            Some(id) => exists|i: int| 0 <= i < devices.len() && (#[trigger] devices[i]).id@ == id@,
            None => true,
        }
    }

    /// Checks the requested audio device against the enumerated ones.
    pub fn validate_audio_device(&self, devices: &Vec<AudioDevice>) -> (r: Result<(), SCError>)
        ensures
            r is Ok <==> self.audio_device_listed(devices@),
            r matches Err(e) ==> e is InvalidConfiguration,
    {
        match self.audio_device_id.as_ref() {
            None => Ok(()),
            Some(id) => {
                let mut i: usize = 0;
                while i < devices.len()
                    invariant
                        i <= devices@.len(),
                        self.audio_device_id == Some(*id),
                        forall|j: int| 0 <= j < i ==> (#[trigger] devices@[j]).id@ != id@,
                    decreases devices@.len() - i,
                {
                    if devices[i].id.eq(id) {
                        assert(devices@[i as int].id@ == id@);
                        return Ok(());
                    }
                    i += 1;
                }
                Err(SCError::InvalidConfiguration)
            },
        }
    }

    /// Checks the configuration and resolves it to stream settings.
    pub fn validate(&self) -> (r: Result<StreamConfiguration, SCError>)
        ensures
            r is Ok <==> self.is_acceptable(),
            r matches Ok(c) ==> c == self.spec_stream_configuration() && c.is_valid(),
            r matches Err(e) ==> e is InvalidConfiguration,
    {
        if self.output_path.as_str().is_empty() {
            return Err(SCError::InvalidConfiguration);
        }
        let width = match self.width {
            Some(w) => w,
            None => DEFAULT_WIDTH,
        };
        let height = match self.height {
            Some(h) => h,
            None => DEFAULT_HEIGHT,
        };
        let fps = match self.fps {
            Some(f) => f,
            None => DEFAULT_FPS,
        };
        if width < MIN_WIDTH || width > MAX_WIDTH {
            return Err(SCError::InvalidConfiguration);
        }
        if height < MIN_HEIGHT || height > MAX_HEIGHT {
            return Err(SCError::InvalidConfiguration);
        }
        if fps < MIN_FPS || fps > MAX_FPS {
            return Err(SCError::InvalidConfiguration);
        }
        let shows_cursor = match self.show_cursor {
            Some(b) => b,
            None => true,
        };
        let captures_audio = match self.capture_audio {
            Some(b) => b,
            None => false,
        };
        Ok(
            StreamConfiguration {
                width,
                height,
                fps,
                shows_cursor,
                captures_audio,
                pixel_format: PIXEL_FORMAT_32BGRA,
                color_space: COLOR_SPACE_SRGB,
            },
        )
    }
}

} // verus!
