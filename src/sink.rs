use vstd::prelude::*;
use crate::types::{dimensions_in_range, fps_in_range};

verus! {

/// What became of one sample handed to the sink.
#[derive(Debug, Clone, Copy, PartialEq, Eq, Structural)]
pub enum SampleOutcome {
    /// Appended to its track, at this many nanoseconds after the session start.
    Written(u64),
    /// Not appended: the track was not ready, the sample precedes the
    /// session start, or the track's count is full; counted as dropped.
    Dropped,
    /// Not for this sink: its track is disabled or the sink is closed.
    Ignored,
}

/// Settings of the video track's encoder.
#[derive(Debug, Clone, Copy, PartialEq, Eq, Structural)]
pub struct VideoSettings {
    pub width: u32,
    pub height: u32,
    /// Average bit rate: eight bits per pixel of one frame.
    pub average_bit_rate: u64,
    /// At most one key frame every two seconds.
    pub max_key_frame_interval: u32,
}

impl VideoSettings {
    pub fn for_frame(width: u32, height: u32, fps: u32) -> (r: Self)
        requires
            dimensions_in_range(width, height),
            fps_in_range(fps),
        ensures
            r.width == width,
            r.height == height,
            r.average_bit_rate == width as nat * height as nat * 8,
            r.max_key_frame_interval == fps * 2,
    {
        assert(width as nat * height as nat <= 7680 * 4320) by (nonlinear_arith)
            requires
                width <= 7680,
                height <= 4320,
        ;
        let px: u64 = width as u64 * height as u64;
        VideoSettings { width, height, average_bit_rate: px * 8, max_key_frame_interval: fps * 2 }
    }
}

/// AAC, the codec of the audio track ('aac ').
pub const AUDIO_FORMAT_AAC: u32 = 0x61616320;

/// Settings of the audio track's encoder.
#[derive(Debug, Clone, Copy, PartialEq, Eq, Structural)]
pub struct AudioSettings {
    pub format_id: u32,
    pub sample_rate: u32,
    pub channels: u32,
    pub bit_rate: u32,
}

impl AudioSettings {
    /// AAC at 48 kHz, two channels, 128 kbit/s.
    pub fn standard() -> (r: Self)
        ensures
            r == (AudioSettings {
                format_id: AUDIO_FORMAT_AAC,
                sample_rate: 48000,
                channels: 2,
                bit_rate: 128000,
            }),
    {
        AudioSettings { format_id: AUDIO_FORMAT_AAC, sample_rate: 48000, channels: 2, bit_rate: 128000 }
    }
}

/// Statistics and path of a finished container.
#[derive(Debug)]
pub struct FinalizeReport {
    pub path: String,
    pub frame_count: u64,
    pub sample_count: u64,
    pub estimated_duration_ms: u64,
    /// Whether this call closed the container (false when it was closed already).
    pub closed_now: bool,
}

/// Two track encoders, video and optional audio, writing one container.
#[derive(Debug)]
pub struct EncoderSink {
    pub output_path: String,
    pub fps: u32,
    pub audio_enabled: bool,
    /// Presentation time, in nanoseconds, of the first sample; it anchors
    /// every later timestamp.
    pub session_start: Option<i64>,
    pub frame_count: u64,
    pub sample_count: u64,
    pub dropped_video: u64,
    pub dropped_audio: u64,
    pub finalized: bool,
}

pub open spec fn inc_saturating(n: u64) -> u64 {
    if n < u64::MAX {
        (n + 1) as u64
    } else {
        n
    }
}

/// Estimated duration, in milliseconds, of `frames` frames at `fps`, at
/// most `u64::MAX`.
pub open spec fn estimated_duration_ms(frames: u64, fps: u32) -> u64 {
    let d = frames as nat * 1000 / fps as nat;
    if d <= u64::MAX {
        d as u64
    } else {
        u64::MAX
    }
}

/// The start time after a sample at `pts`: set by the first sample only.
pub open spec fn anchored(start: Option<i64>, pts: i64) -> i64 {
    match start {
        Some(t) => t,
        None => pts,
    }
}

impl EncoderSink {
    pub open spec fn well_formed(&self) -> bool {
        self.fps >= 1
    }

    /// The sink after a video sample at `pts` (track ready or not), and what
    /// became of the sample.
    pub open spec fn video_next(self, pts: i64, ready: bool) -> (EncoderSink, SampleOutcome) {
        if self.finalized {
            (self, SampleOutcome::Ignored)
        } else {
            let start = anchored(self.session_start, pts);
            let s = EncoderSink { session_start: Some(start), ..self };
            if !ready || pts < start || self.frame_count == u64::MAX {
                (
                    EncoderSink { dropped_video: inc_saturating(self.dropped_video), ..s },
                    SampleOutcome::Dropped,
                )
            } else {
                (
                    EncoderSink { frame_count: (self.frame_count + 1) as u64, ..s },
                    SampleOutcome::Written((pts - start) as u64),
                )
            }
        }
    }

    /// The sink after an audio sample at `pts`, and what became of it.
    pub open spec fn audio_next(self, pts: i64, ready: bool) -> (EncoderSink, SampleOutcome) {
        if self.finalized || !self.audio_enabled {
            (self, SampleOutcome::Ignored)
        } else {
            let start = anchored(self.session_start, pts);
            let s = EncoderSink { session_start: Some(start), ..self };
            if !ready || pts < start || self.sample_count == u64::MAX {
                (
                    EncoderSink { dropped_audio: inc_saturating(self.dropped_audio), ..s },
                    SampleOutcome::Dropped,
                )
            } else {
                (
                    EncoderSink { sample_count: (self.sample_count + 1) as u64, ..s },
                    SampleOutcome::Written((pts - start) as u64),
                )
            }
        }
    }

    /// The sink after `finalize`: closed, with every count kept.
    pub open spec fn finalize_next(self) -> EncoderSink {
        EncoderSink { finalized: true, ..self }
    }

    pub open spec fn finalize_report(self, r: FinalizeReport) -> bool {
        &&& r.path == self.output_path
        &&& r.frame_count == self.frame_count
        &&& r.sample_count == self.sample_count
        &&& r.estimated_duration_ms == estimated_duration_ms(self.frame_count, self.fps)
        &&& r.closed_now == !self.finalized
    }

    /// An open sink with nothing written; the audio track only if enabled.
    pub fn new(output_path: String, fps: u32, audio_enabled: bool) -> (r: Self)
        requires
            fps >= 1,
        ensures
            r.well_formed(),
            r.output_path == output_path,
            r.fps == fps,
            r.audio_enabled == audio_enabled,
            r.session_start is None,
            r.frame_count == 0,
            r.sample_count == 0,
            r.dropped_video == 0,
            r.dropped_audio == 0,
            !r.finalized,
    {
        EncoderSink {
            output_path,
            fps,
            audio_enabled,
            session_start: None,
            frame_count: 0,
            sample_count: 0,
            dropped_video: 0,
            dropped_audio: 0,
            finalized: false,
        }
    }

    fn anchor(&mut self, pts: i64) -> (start: i64)
        ensures
            start == anchored(old(self).session_start, pts),
            *final(self) == (EncoderSink { session_start: Some(start), ..*old(self) }),
    {
        let start = match self.session_start {
            Some(t) => t,
            None => pts,
        };
        self.session_start = Some(start);
        start
    }

    /// Hands a video sample, presented at `pts` nanoseconds, to the video
    /// track; `ready` is the track's readiness for more data.
    pub fn encode_video(&mut self, pts: i64, ready: bool) -> (r: SampleOutcome)
        ensures
            (*final(self), r) == old(self).video_next(pts, ready),
    {
        if self.finalized {
            return SampleOutcome::Ignored;
        }
        let start = self.anchor(pts);
        if !ready || pts < start || self.frame_count == u64::MAX {
            if self.dropped_video < u64::MAX {
                self.dropped_video = self.dropped_video + 1;
            }
            SampleOutcome::Dropped
        } else {
            self.frame_count = self.frame_count + 1;
            let offset = (pts as i128 - start as i128) as u64;
            SampleOutcome::Written(offset)
        }
    }

    /// Hands an audio sample, presented at `pts` nanoseconds, to the audio
    /// track, if there is one.
    pub fn encode_audio(&mut self, pts: i64, ready: bool) -> (r: SampleOutcome)
        ensures
            (*final(self), r) == old(self).audio_next(pts, ready),
    {
        if self.finalized || !self.audio_enabled {
            return SampleOutcome::Ignored;
        }
        let start = self.anchor(pts);
        if !ready || pts < start || self.sample_count == u64::MAX {
            if self.dropped_audio < u64::MAX {
                self.dropped_audio = self.dropped_audio + 1;
            }
            SampleOutcome::Dropped
        } else {
            self.sample_count = self.sample_count + 1;
            let offset = (pts as i128 - start as i128) as u64;
            SampleOutcome::Written(offset)
        }
    }

    /// Marks both tracks finished and closes the container, once; reports
    /// the path and the final statistics on every call.
    pub fn finalize(&mut self) -> (r: FinalizeReport)
        requires
            old(self).well_formed(),
        ensures
            *final(self) == old(self).finalize_next(),
            old(self).finalize_report(r),
    {
        let closed_now = !self.finalized;
        self.finalized = true;
        let d: u128 = self.frame_count as u128 * 1000 / self.fps as u128;
        let estimated_duration_ms = if d <= u64::MAX as u128 {
            d as u64
        } else {
            u64::MAX
        };
        FinalizeReport {
            path: self.output_path.clone(),
            frame_count: self.frame_count,
            sample_count: self.sample_count,
            estimated_duration_ms,
            closed_now,
        }
    }
}

/// A sample is never written at a time before the session start: whatever
/// the sink's state, a written sample's offset is its presentation time
/// minus the start time, and that start time is not later than it.
pub proof fn lemma_no_write_before_session_start(s: EncoderSink, pts: i64, ready: bool)
    ensures
        ({
            let (v, rv) = s.video_next(pts, ready);
            rv matches SampleOutcome::Written(t) ==> v.session_start matches Some(st) && st
                <= pts && t == pts - st
        }),
        ({
            let (a, ra) = s.audio_next(pts, ready);
            ra matches SampleOutcome::Written(t) ==> a.session_start matches Some(st) && st
                <= pts && t == pts - st
        }),
        s.session_start matches Some(st) ==> s.video_next(pts, ready).0.session_start == Some(st)
            && s.audio_next(pts, ready).0.session_start == Some(st),
{
}

/// Finalizing twice gives the same path and statistics; the second call
/// closes nothing and changes nothing.
pub proof fn lemma_finalize_idempotent(s: EncoderSink, r1: FinalizeReport, r2: FinalizeReport)
    requires
        s.finalize_report(r1),
        s.finalize_next().finalize_report(r2),
    ensures
        r2.path == r1.path,
        r2.frame_count == r1.frame_count,
        r2.sample_count == r1.sample_count,
        r2.estimated_duration_ms == r1.estimated_duration_ms,
        !r2.closed_now,
        s.finalize_next().finalize_next() == s.finalize_next(),
{
}

} // verus!
