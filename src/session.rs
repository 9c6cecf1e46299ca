use vstd::prelude::*;
use crate::config::RecordingConfiguration;
use crate::filters::ContentFilter;
use crate::sink::{EncoderSink, FinalizeReport, SampleOutcome, inc_saturating, estimated_duration_ms};
use crate::types::{RecordingState, SCError, SCStreamOutputType, StreamConfiguration};

verus! {

/// Video samples between two throughput estimates.
pub const FPS_WINDOW: u64 = 30;

/// `FPS_WINDOW` frames, in thousandths, times nanoseconds per second:
/// divided by a window's length in nanoseconds, it gives thousandths of a
/// frame per second.
pub const FPS_WINDOW_MILLI_NS: u64 = 30_000_000_000_000;

/// What monitoring callers see of a session.
#[derive(Debug)]
pub struct StatusReport {
    pub is_recording: bool,
    pub state: RecordingState,
    pub output_path: String,
    pub video_frames: u64,
    pub audio_frames: u64,
    /// Throughput of the last window, in thousandths of a frame per second.
    pub current_fps_milli: u64,
    pub estimated_duration_ms: u64,
    pub audio_enabled: bool,
}

/// One capture session: its lifecycle state, the filter and settings it
/// was started with, its encoder sink, and the dispatch counters.
#[derive(Debug)]
pub struct CaptureSession {
    pub state: RecordingState,
    pub filter: Option<ContentFilter>,
    pub config: Option<StreamConfiguration>,
    pub output_path: String,
    pub sink: Option<EncoderSink>,
    /// Video samples delivered while recording; never reset.
    pub video_frames: u64,
    /// Audio samples delivered to an enabled audio track; never reset.
    pub audio_frames: u64,
    pub fps_milli: u64,
    pub fps_mark_ns: u64,
}

/// A new open sink for `path`.
pub open spec fn fresh_sink(path: String, fps: u32, audio_enabled: bool) -> EncoderSink {
    EncoderSink {
        output_path: path,
        fps,
        audio_enabled,
        session_start: None,
        frame_count: 0,
        sample_count: 0,
        dropped_video: 0,
        dropped_audio: 0,
        finalized: false,
    }
}

/// The throughput estimate and window mark after a window closes at `now`.
pub open spec fn throughput_next(fps_milli: u64, mark: u64, now: u64) -> (u64, u64) {
    if now > mark {
        ((FPS_WINDOW_MILLI_NS as nat / (now - mark) as nat) as u64, now)
    } else {
        (fps_milli, now)
    }
}

impl CaptureSession {
    pub open spec fn well_formed(&self) -> bool {
        &&& (self.sink matches Some(k) ==> k.well_formed())
        &&& (self.state == RecordingState::Starting ==> {
            &&& self.config matches Some(c)
            &&& c.is_valid()
            &&& (self.sink matches Some(k) ==> !k.finalized && k.output_path
                == self.output_path)
        })
        &&& (self.state == RecordingState::Recording || self.state == RecordingState::Stopping
            ==> {
            &&& self.config matches Some(c)
            &&& c.is_valid()
            &&& self.sink matches Some(k)
            &&& !k.finalized
            &&& k.output_path == self.output_path
        })
    }

    /// The session and the result after `start(filter, config)`.
    pub open spec fn start_next(self, filter: ContentFilter, config: RecordingConfiguration) -> (
        CaptureSession,
        Result<StreamConfiguration, SCError>,
    ) {
        match self.state {
            RecordingState::Idle => if !config.is_acceptable() {
                (self, Err(SCError::InvalidConfiguration))
            } else if !filter.spec_is_valid() {
                (self, Err(SCError::FilterCreationFailed))
            } else {
                let c = config.spec_stream_configuration();
                (
                    CaptureSession {
                        state: RecordingState::Starting,
                        filter: Some(filter),
                        config: Some(c),
                        output_path: config.output_path,
                        sink: None,
                        ..self
                    },
                    Ok(c),
                )
            },
            RecordingState::Error => (self, Err(SCError::RecordingFailed)),
            _ => (self, Err(SCError::AlreadyRecording)),
        }
    }

    pub open spec fn awaits_encoders(&self) -> bool {
        self.state == RecordingState::Starting && self.sink is None
    }

    /// The session and the result once the encoders were set up: the video
    /// encoder is required, the audio one is not.
    pub open spec fn encoders_next(self, video_ok: bool, audio_ok: bool) -> (
        CaptureSession,
        Result<(), SCError>,
    ) {
        if video_ok {
            let c = self.config->0;
            (
                CaptureSession {
                    sink: Some(fresh_sink(self.output_path, c.fps, c.captures_audio && audio_ok)),
                    ..self
                },
                Ok(()),
            )
        } else {
            (CaptureSession { state: RecordingState::Error, ..self }, Err(
                SCError::EncoderInitFailed,
            ))
        }
    }

    pub open spec fn awaits_start_completion(&self) -> bool {
        self.state == RecordingState::Starting && self.sink is Some
    }

    /// The session and the result once the capture service answered the
    /// start request; on failure the sink is closed.
    pub open spec fn start_completed_next(self, ok: bool, now_ns: u64) -> (
        CaptureSession,
        Result<(), SCError>,
    ) {
        if ok {
            (CaptureSession { state: RecordingState::Recording, fps_mark_ns: now_ns, ..self }, Ok(
                (),
            ))
        } else {
            (
                CaptureSession {
                    state: RecordingState::Error,
                    sink: Some(self.sink->0.finalize_next()),
                    ..self
                },
                Err(SCError::StreamCreationFailed),
            )
        }
    }

    /// The session and the result after `stop()`: `Ok(true)` asks for the
    /// capture to be stopped, `Ok(false)` says a stop is already under way.
    pub open spec fn stop_next(self) -> (CaptureSession, Result<bool, SCError>) {
        match self.state {
            RecordingState::Recording => (
                CaptureSession { state: RecordingState::Stopping, ..self },
                Ok(true),
            ),
            RecordingState::Stopping => (self, Ok(false)),
            RecordingState::Error => (self, Err(SCError::RecordingFailed)),
            _ => (self, Err(SCError::NotRecording)),
        }
    }

    /// The session after the stop completed, with or without an error from
    /// the capture service: the sink is closed and the filter released.
    pub open spec fn stop_completed_next(self) -> CaptureSession {
        CaptureSession {
            state: RecordingState::Idle,
            filter: None,
            sink: Some(self.sink->0.finalize_next()),
            ..self
        }
    }

    /// The session after a sample of `kind` arrived at `now_ns`, and what
    /// became of the sample. Only a recording session takes samples.
    pub open spec fn sample_next(
        self,
        kind: SCStreamOutputType,
        pts: i64,
        ready: bool,
        now_ns: u64,
    ) -> (CaptureSession, SampleOutcome) {
        if self.state != RecordingState::Recording || self.sink is None {
            (self, SampleOutcome::Ignored)
        } else {
            let k = self.sink->0;
            match kind {
                SCStreamOutputType::Screen => {
                    let vf = inc_saturating(self.video_frames);
                    let (fps, mark) = if vf != self.video_frames && vf % FPS_WINDOW == 0 {
                        throughput_next(self.fps_milli, self.fps_mark_ns, now_ns)
                    } else {
                        (self.fps_milli, self.fps_mark_ns)
                    };
                    let (k2, out) = k.video_next(pts, ready);
                    (
                        CaptureSession {
                            video_frames: vf,
                            fps_milli: fps,
                            fps_mark_ns: mark,
                            sink: Some(k2),
                            ..self
                        },
                        out,
                    )
                },
                _ => if !k.audio_enabled {
                    (self, SampleOutcome::Ignored)
                } else {
                    let (k2, out) = k.audio_next(pts, ready);
                    (
                        CaptureSession {
                            audio_frames: inc_saturating(self.audio_frames),
                            sink: Some(k2),
                            ..self
                        },
                        out,
                    )
                },
            }
        }
    }

    /// The session after an internal fault: any state but `Idle` ends in `Error`.
    pub open spec fn fault_next(self) -> CaptureSession {
        if self.state == RecordingState::Idle {
            self
        } else {
            CaptureSession { state: RecordingState::Error, ..self }
        }
    }

    /// A new idle session with its counters at zero.
    pub fn new() -> (r: Self)
        ensures
            r.well_formed(),
            r.state == RecordingState::Idle,
            r.filter is None,
            r.config is None,
            r.output_path@.len() == 0,
            r.sink is None,
            r.video_frames == 0,
            r.audio_frames == 0,
            r.fps_milli == 0,
            r.fps_mark_ns == 0,
    {
        CaptureSession {
            state: RecordingState::Idle,
            filter: None,
            config: None,
            output_path: String::new(),
            sink: None,
            video_frames: 0,
            audio_frames: 0,
            fps_milli: 0,
            fps_mark_ns: 0,
        }
    }

    /// What `check_start` answers: the state and the configuration allow a
    /// start, before any filter or native object exists.
    pub open spec fn check_start_spec(self, config: RecordingConfiguration) -> Result<
        StreamConfiguration,
        SCError,
    > {
        match self.state {
            RecordingState::Idle => if config.is_acceptable() {
                Ok(config.spec_stream_configuration())
            } else {
                Err(SCError::InvalidConfiguration)
            },
            RecordingState::Error => Err(SCError::RecordingFailed),
            _ => Err(SCError::AlreadyRecording),
        }
    }

    /// Checks, without changing anything, that a start with `config` would
    /// be accepted once a valid filter is at hand; callers make this check
    /// before they build any native object.
    pub fn check_start(&self, config: &RecordingConfiguration) -> (r: Result<
        StreamConfiguration,
        SCError,
    >)
        ensures
            r == self.check_start_spec(*config),
    {
        match self.state {
            RecordingState::Idle => {},
            RecordingState::Error => {
                return Err(SCError::RecordingFailed);
            },
            _ => {
                return Err(SCError::AlreadyRecording);
            },
        }
        match config.validate() {
            Ok(c) => Ok(c),
            Err(_) => Err(SCError::InvalidConfiguration),
        }
    }

    /// Starts a session: checks the state, then the configuration, then the
    /// filter, and only then moves to `Starting`, returning the stream
    /// settings to set up. A rejected call changes nothing.
    pub fn start(&mut self, filter: ContentFilter, config: &RecordingConfiguration) -> (r: Result<
        StreamConfiguration,
        SCError,
    >)
        requires
            old(self).well_formed(),
        ensures
            final(self).well_formed(),
            (*final(self), r) == old(self).start_next(filter, *config),
    {
        match self.state {
            RecordingState::Idle => {},
            RecordingState::Error => {
                return Err(SCError::RecordingFailed);
            },
            _ => {
                return Err(SCError::AlreadyRecording);
            },
        }
        let c = match config.validate() {
            Ok(c) => c,
            Err(_) => {
                return Err(SCError::InvalidConfiguration);
            },
        };
        if !filter.is_valid() {
            return Err(SCError::FilterCreationFailed);
        }
        self.state = RecordingState::Starting;
        self.filter = Some(filter);
        self.config = Some(c.clone());
        self.output_path = config.output_path.clone();
        self.sink = None;
        Ok(c)
    }

    /// Records the outcome of setting up the encoders.
    pub fn encoders_ready(&mut self, video_ok: bool, audio_ok: bool) -> (r: Result<(), SCError>)
        requires
            old(self).well_formed(),
            old(self).awaits_encoders(),
        ensures
            final(self).well_formed(),
            (*final(self), r) == old(self).encoders_next(video_ok, audio_ok),
    {
        if video_ok {
            let (fps, audio) = match &self.config {
                Some(c) => (c.fps, c.captures_audio && audio_ok),
                None => (1, false),
            };
            self.sink = Some(EncoderSink::new(self.output_path.clone(), fps, audio));
            Ok(())
        } else {
            self.state = RecordingState::Error;
            Err(SCError::EncoderInitFailed)
        }
    }

    /// Records the capture service's answer to the start request.
    pub fn start_completed(&mut self, ok: bool, now_ns: u64) -> (r: Result<(), SCError>)
        requires
            old(self).well_formed(),
            old(self).awaits_start_completion(),
        ensures
            final(self).well_formed(),
            (*final(self), r) == old(self).start_completed_next(ok, now_ns),
    {
        if ok {
            self.state = RecordingState::Recording;
            self.fps_mark_ns = now_ns;
            Ok(())
        } else {
            self.state = RecordingState::Error;
            match &mut self.sink {
                Some(k) => {
                    let _ = k.finalize();
                },
                None => {},
            }
            Err(SCError::StreamCreationFailed)
        }
    }

    /// Asks to stop: only a recording session moves to `Stopping`; a second
    /// call while stopping asks for nothing more.
    pub fn stop(&mut self) -> (r: Result<bool, SCError>)
        requires
            old(self).well_formed(),
        ensures
            final(self).well_formed(),
            (*final(self), r) == old(self).stop_next(),
    {
        match self.state {
            RecordingState::Recording => {
                self.state = RecordingState::Stopping;
                Ok(true)
            },
            RecordingState::Stopping => Ok(false),
            RecordingState::Error => Err(SCError::RecordingFailed),
            _ => Err(SCError::NotRecording),
        }
    }

    /// The stop completed (or its wait ran out): closes the sink, whatever
    /// the capture service reported, and returns to `Idle`.
    pub fn stop_completed(&mut self) -> (r: FinalizeReport)
        requires
            old(self).well_formed(),
            old(self).state == RecordingState::Stopping,
        ensures
            final(self).well_formed(),
            *final(self) == old(self).stop_completed_next(),
            old(self).sink->0.finalize_report(r),
    {
        self.state = RecordingState::Idle;
        self.filter = None;
        match &mut self.sink {
            Some(k) => k.finalize(),
            None => {
                // unreachable: a stopping session holds its sink
                FinalizeReport {
                    path: self.output_path.clone(),
                    frame_count: 0,
                    sample_count: 0,
                    estimated_duration_ms: 0,
                    closed_now: false,
                }
            },
        }
    }

    /// Dispatches one sample delivered by the capture service at `now_ns`.
    pub fn on_sample(&mut self, kind: SCStreamOutputType, pts: i64, ready: bool, now_ns: u64) -> (r:
        SampleOutcome)
        requires
            old(self).well_formed(),
        ensures
            final(self).well_formed(),
            (*final(self), r) == old(self).sample_next(kind, pts, ready, now_ns),
    {
        if self.state != RecordingState::Recording {
            return SampleOutcome::Ignored;
        }
        match kind {
            SCStreamOutputType::Screen => {
                let before = self.video_frames;
                if self.video_frames < u64::MAX {
                    self.video_frames = self.video_frames + 1;
                }
                if self.video_frames != before && self.video_frames % FPS_WINDOW == 0 {
                    if now_ns > self.fps_mark_ns {
                        self.fps_milli = FPS_WINDOW_MILLI_NS / (now_ns - self.fps_mark_ns);
                    }
                    self.fps_mark_ns = now_ns;
                }
                match &mut self.sink {
                    Some(k) => k.encode_video(pts, ready),
                    None => SampleOutcome::Ignored,
                }
            },
            _ => {
                let enabled = match &self.sink {
                    Some(k) => k.audio_enabled,
                    None => false,
                };
                if !enabled {
                    return SampleOutcome::Ignored;
                }
                if self.audio_frames < u64::MAX {
                    self.audio_frames = self.audio_frames + 1;
                }
                match &mut self.sink {
                    Some(k) => k.encode_audio(pts, ready),
                    None => SampleOutcome::Ignored,
                }
            },
        }
    }

    /// An internal fault (a missing native handle): the session ends in `Error`.
    pub fn fault(&mut self)
        requires
            old(self).well_formed(),
        ensures
            final(self).well_formed(),
            *final(self) == old(self).fault_next(),
    {
        if self.state != RecordingState::Idle {
            self.state = RecordingState::Error;
        }
    }

    pub fn is_recording(&self) -> (r: bool)
        ensures
            r == (self.state == RecordingState::Recording),
    {
        self.state == RecordingState::Recording
    }

    pub fn get_state(&self) -> (r: RecordingState)
        ensures
            r == self.state,
    {
        self.state
    }

    /// The status report of the session.
    pub fn status(&self) -> (r: StatusReport)
        requires
            self.well_formed(),
        ensures
            r.is_recording == (self.state == RecordingState::Recording),
            r.state == self.state,
            r.output_path == self.output_path,
            r.video_frames == self.video_frames,
            r.audio_frames == self.audio_frames,
            r.current_fps_milli == self.fps_milli,
            r.estimated_duration_ms == match self.sink {
                Some(k) => estimated_duration_ms(k.frame_count, k.fps),
                None => 0,
            },
            r.audio_enabled == (self.sink matches Some(k) && k.audio_enabled),
    {
        let (estimated_duration_ms, audio_enabled) = match &self.sink {
            Some(k) => {
                let d: u128 = k.frame_count as u128 * 1000 / k.fps as u128;
                let d = if d <= u64::MAX as u128 {
                    d as u64
                } else {
                    u64::MAX
                };
                (d, k.audio_enabled)
            },
            None => (0, false),
        };
        StatusReport {
            is_recording: self.state == RecordingState::Recording,
            state: self.state,
            output_path: self.output_path.clone(),
            video_frames: self.video_frames,
            audio_frames: self.audio_frames,
            current_fps_milli: self.fps_milli,
            estimated_duration_ms,
            audio_enabled,
        }
    }
}

/// Starting a valid configuration and stopping right away returns the
/// session to `Idle` and hands back the configured output path, which is
/// not empty, provided the video encoder can be set up and the capture
/// service accepts the start request.
pub proof fn lemma_start_then_stop(
    s: CaptureSession,
    filter: ContentFilter,
    config: RecordingConfiguration,
    audio_ok: bool,
    now_ns: u64,
    report: FinalizeReport,
)
    requires
        s.well_formed(),
        s.state == RecordingState::Idle,
        filter.spec_is_valid(),
        config.is_acceptable(),
        ({
            let s1 = s.start_next(filter, config).0;
            let s2 = s1.encoders_next(true, audio_ok).0;
            let s3 = s2.start_completed_next(true, now_ns).0;
            s3.stop_next().0.sink->0.finalize_report(report)
        }),
    ensures
        ({
            let (s1, r1) = s.start_next(filter, config);
            let (s2, r2) = s1.encoders_next(true, audio_ok);
            let (s3, r3) = s2.start_completed_next(true, now_ns);
            let (s4, r4) = s3.stop_next();
            let s5 = s4.stop_completed_next();
            &&& r1 is Ok
            &&& r2 is Ok
            &&& r3 is Ok
            &&& s3.state == RecordingState::Recording
            &&& r4 == Ok::<bool, SCError>(true)
            &&& s5.state == RecordingState::Idle
            &&& s5.well_formed()
            &&& report.path == config.output_path
            &&& report.path@.len() > 0
        }),
{
}

/// The check made before a filter is built agrees with `start`: where it
/// passes, `start` with any valid filter succeeds with the same settings;
/// where it fails, `start` fails with the same error and changes nothing.
pub proof fn lemma_check_start_agrees(
    s: CaptureSession,
    filter: ContentFilter,
    config: RecordingConfiguration,
)
    requires
        filter.spec_is_valid(),
    ensures
        s.start_next(filter, config).1 == s.check_start_spec(config),
        s.check_start_spec(config) is Err ==> s.start_next(filter, config).0 == s,
{
}

/// `stop` on an idle session fails with `NotRecording`, and `start` on a
/// recording session fails with `AlreadyRecording`; neither changes the
/// session.
pub proof fn lemma_misuse_is_rejected(
    s: CaptureSession,
    filter: ContentFilter,
    config: RecordingConfiguration,
)
    ensures
        s.state == RecordingState::Idle ==> s.stop_next() == (s, Err::<bool, SCError>(
            SCError::NotRecording,
        )),
        s.state == RecordingState::Recording ==> s.start_next(filter, config) == (s, Err::<
            StreamConfiguration,
            SCError,
        >(SCError::AlreadyRecording)),
{
}

/// The video frame counter never goes down: every event keeps it but a
/// video sample taken while recording, which raises it by one (short of
/// the counter's limit). Only a new session starts it again at zero.
pub proof fn lemma_video_counter_increases(
    s: CaptureSession,
    filter: ContentFilter,
    config: RecordingConfiguration,
    video_ok: bool,
    audio_ok: bool,
    ok: bool,
    kind: SCStreamOutputType,
    pts: i64,
    ready: bool,
    now_ns: u64,
)
    ensures
        s.sample_next(kind, pts, ready, now_ns).0.video_frames >= s.video_frames,
        kind == SCStreamOutputType::Screen && s.state == RecordingState::Recording && s.sink is Some
            && s.video_frames < u64::MAX ==> s.sample_next(kind, pts, ready, now_ns).0.video_frames
            == s.video_frames + 1,
        s.start_next(filter, config).0.video_frames == s.video_frames,
        s.encoders_next(video_ok, audio_ok).0.video_frames == s.video_frames,
        s.start_completed_next(ok, now_ns).0.video_frames == s.video_frames,
        s.stop_next().0.video_frames == s.video_frames,
        s.stop_completed_next().video_frames == s.video_frames,
        s.fault_next().video_frames == s.video_frames,
{
}

/// A width of 50 is rejected before anything is set up: the check made
/// before any native object is built fails, and so does `start`, which
/// leaves the session as it was and asks for no stream; on an idle session
/// the error is `InvalidConfiguration`, whatever the filter.
pub proof fn lemma_invalid_width_rejected_first(
    s: CaptureSession,
    filter: ContentFilter,
    config: RecordingConfiguration,
)
    requires
        config.width == Some(50u32),
    ensures
        s.check_start_spec(config) is Err,
        s.start_next(filter, config).0 == s,
        s.start_next(filter, config).1 is Err,
        s.state == RecordingState::Idle ==> s.start_next(filter, config).1 == Err::<
            StreamConfiguration,
            SCError,
        >(SCError::InvalidConfiguration),
{
}

} // verus!
