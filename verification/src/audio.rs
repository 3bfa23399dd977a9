//! The recording controller: the state machine behind `start`, `stop` and
//! `is_recording`, together with the capture sink and the watchdog's effects
//! on a session.
//!
//! The controller owns the recording flag, the time of the last activity and
//! the knowledge of whether the session's output writer is still open. It
//! does no input or output: every method takes what was observed as plain
//! values and answers with what is to be done. A caller that shares the
//! controller between threads serialises the calls; between two sessions it
//! tears the old stream down before it starts the next.

use vstd::prelude::*;
use crate::config::Config;
use crate::device::{falls_back, resolve_device, DeviceChoice, HostSnapshot};
use crate::error::RecorderError;
use crate::sample::{
    flush_after, is_loud_pcm, is_loud_rms, loud_pcm, loud_rms, pcm_from_pcm_buffer,
    pcm_from_scaled_buffer, pcm_of_scaled_buffer, FLUSH_THRESHOLD,
};
use crate::session::{
    recording_path_text, session_path, stamp_in_range, stamp_text, SessionClock, SessionPlan,
    StartAction,
};
use crate::stream::{negotiate, negotiated, StreamPlan};
use crate::strings::text_view;
use crate::watchdog::{
    after_sleep, poll_decision, tick_decision, TickOutcome, Watchdog, WatchdogAction,
};

verus! {

/// What the capture sink does with one buffer, without the data.
#[derive(Debug, Clone, Copy, PartialEq, Eq, Structural)]
pub enum SinkStep {
    /// Nothing: the session is over and its writer is closed.
    Nothing,
    /// The buffer is written.
    Write,
    /// The writer is flushed and closed for good.
    Finalize,
}

/// What the caller does with the output writer after a buffer was handed to
/// the capture sink.
#[derive(Debug, Clone)]
pub enum SinkAction {
    /// Nothing: the session is over and its writer is closed.
    Nothing,
    /// Write the samples in this order; a sample that cannot be written is
    /// skipped. Flush the writer afterwards if `flush` is set.
    Write { samples: Vec<i16>, flush: bool },
    /// Flush and close the writer and leave its place empty.
    Finalize,
}

impl SinkAction {
    /// The action without its data.
    pub open spec fn step(self) -> SinkStep {
        match self {
            SinkAction::Nothing => SinkStep::Nothing,
            SinkAction::Write { .. } => SinkStep::Write,
            SinkAction::Finalize => SinkStep::Finalize,
        }
    }
}

/// What is fixed about a session when it is created.
#[derive(Debug, Clone)]
pub struct RecordingSession {
    /// The path of the output file.
    pub output_file: String,
    /// When the session was created, in seconds since the start of 1970.
    pub started_at: u64,
    /// The effective stream configuration; samples are stored with 16 bits.
    pub stream: StreamPlan,
}

/// A session as the contracts see it.
pub struct SessionRecord {
    /// The path of the output file.
    pub output_file: Seq<char>,
    /// When the session was created, in seconds since the start of 1970.
    pub started_at: u64,
    /// The effective stream configuration.
    pub stream: StreamPlan,
}

/// The state of the controller as the contracts see it.
pub struct RecorderState {
    /// The recording flag: set while a session runs.
    pub recording: bool,
    /// Whether the output writer of the last session is still open.
    pub writer_open: bool,
    /// When activity was last recorded, in seconds since the start of 1970.
    pub last_active: u64,
    /// The last session that was created and neither stopped nor given up.
    pub session: Option<SessionRecord>,
    /// The number of the last session that was created.
    pub session_id: u64,
}

impl View for RecordingSession {
    type V = SessionRecord;

    open spec fn view(&self) -> SessionRecord {
        SessionRecord {
            output_file: self.output_file@,
            started_at: self.started_at,
            stream: self.stream,
        }
    }
}

/// The view of an optional session.
pub open spec fn session_view(session: Option<RecordingSession>) -> Option<SessionRecord> {
    match session {
        Some(s) => Some(s@),
        None => None,
    }
}

/// The number of the session after `session`.
pub open spec fn next_session(session: u64) -> u64 {
    if session == u64::MAX {
        0
    } else {
        (session + 1) as u64
    }
}

/// Whether a buffer counts as activity: every buffer does while silence
/// detection is switched off, and a loud one does in any case.
pub open spec fn counts_as_activity(silence_detection_disabled: bool, loud: bool) -> bool {
    silence_detection_disabled || loud
}

impl RecorderState {
    /// What holds of every state: while a session records, its writer is
    /// open and the session is known.
    pub open spec fn wf(self) -> bool {
        self.recording ==> self.writer_open && self.session is Some
    }

    /// The state of a new controller.
    pub open spec fn idle() -> RecorderState {
        RecorderState {
            recording: false,
            writer_open: false,
            last_active: 0,
            session: None,
            session_id: 0,
        }
    }

    /// The state after `session` was created: the flag is set, the writer is
    /// open, and the session's start counts as the last activity.
    pub open spec fn started(self, session: SessionRecord) -> RecorderState {
        RecorderState {
            recording: true,
            writer_open: true,
            last_active: session.started_at,
            session: Some(session),
            session_id: next_session(self.session_id),
        }
    }

    /// The state after a session that could not be carried out was given up.
    pub open spec fn cancelled(self) -> RecorderState {
        RecorderState { recording: false, writer_open: false, session: None, ..self }
    }

    /// The state after a request to stop: a session that records is ended
    /// and discarded.
    pub open spec fn stopped(self) -> RecorderState {
        if self.recording {
            RecorderState { recording: false, session: None, ..self }
        } else {
            self
        }
    }

    /// What a request to stop returns: the output file of the session that
    /// records.
    pub open spec fn stop_result(self) -> Option<Seq<char>> {
        if self.recording && self.session is Some {
            Some(self.session->0.output_file)
        } else {
            None
        }
    }

    /// The state after the watchdog has ended the session.
    pub open spec fn halted(self) -> RecorderState {
        RecorderState { recording: false, ..self }
    }

    /// The state after the watchdog has refreshed the time of the last
    /// activity.
    pub open spec fn refreshed(self, now_secs: u64) -> RecorderState {
        RecorderState { last_active: now_secs, ..self }
    }

    /// What the capture sink does with a buffer in this state.
    pub open spec fn sink_step(self) -> SinkStep {
        if self.recording {
            SinkStep::Write
        } else if self.writer_open {
            SinkStep::Finalize
        } else {
            SinkStep::Nothing
        }
    }

    /// The state after the stream was torn down: the writer of a session
    /// that is over is closed, a session that records is left alone.
    pub open spec fn after_teardown(self) -> RecorderState {
        if self.recording {
            self
        } else {
            RecorderState { writer_open: false, ..self }
        }
    }

    /// What is done with the writer when the stream is torn down in this
    /// state.
    pub open spec fn teardown_step(self) -> SinkStep {
        if !self.recording && self.writer_open {
            SinkStep::Finalize
        } else {
            SinkStep::Nothing
        }
    }

    /// The state after the capture sink has seen a buffer at `now_secs`.
    /// While the session records, a buffer that counts as activity sets the
    /// time of the last activity. Once it is over, the writer is closed.
    pub open spec fn after_buffer(self, active: bool, now_secs: u64) -> RecorderState {
        if self.recording {
            if active {
                RecorderState { last_active: now_secs, ..self }
            } else {
                self
            }
        } else {
            RecorderState { writer_open: false, ..self }
        }
    }
}

/// The device and stream of a session on this host, or why there is none.
/// The chosen device must tell its name and offer a default configuration
/// that negotiation accepts.
pub open spec fn prepared(
    host: HostSnapshot,
    requested: Option<Seq<char>>,
    configured_rate: u32,
) -> Result<(DeviceChoice, StreamPlan), RecorderError> {
    match host.resolve(requested) {
        Err(e) => Err(e),
        Ok(choice) => {
            let device = host.device_of(choice);
            if device.name is None {
                Err(RecorderError::DeviceNameUnavailable)
            } else if device.defaults is None {
                Err(RecorderError::NoDefaultConfig)
            } else {
                match negotiated(device.defaults->0, configured_rate) {
                    Ok(stream) => Ok((choice, stream)),
                    Err(e) => Err(e),
                }
            }
        },
    }
}

/// The recording controller.
pub struct AudioRecorder {
    config: Config,
    recording: bool,
    writer_open: bool,
    last_active: u64,
    session: Option<RecordingSession>,
    session_id: u64,
}

impl View for AudioRecorder {
    type V = RecorderState;

    closed spec fn view(&self) -> RecorderState {
        RecorderState {
            recording: self.recording,
            writer_open: self.writer_open,
            last_active: self.last_active,
            session: session_view(self.session),
            session_id: self.session_id,
        }
    }
}

impl AudioRecorder {
    #[verifier::type_invariant]
    spec fn inv(&self) -> bool {
        self.recording ==> self.writer_open && self.session is Some
    }

    /// The configuration the controller was made with.
    pub closed spec fn settings(&self) -> Config {
        self.config
    }

    /// What a request to start a session with `requested` as device comes
    /// to while no session runs: the device and the new session, or the
    /// error. The output file lies in the configured directory and is named
    /// after the clock's wall time.
    pub open spec fn start_outcome(
        &self,
        requested: Option<Seq<char>>,
        host: HostSnapshot,
        clock: SessionClock,
    ) -> Result<(DeviceChoice, SessionRecord), RecorderError> {
        if !stamp_in_range(clock.local_secs) {
            Err(RecorderError::InvalidClock)
        } else {
            match prepared(host, requested, self.settings().recording.sample_rate) {
                Err(e) => Err(e),
                Ok((device, stream)) => Ok(
                    (
                        device,
                        SessionRecord {
                            output_file: recording_path_text(
                                self.settings().temp_dir@,
                                stamp_text(clock.local_secs),
                            ),
                            started_at: clock.unix_secs,
                            stream,
                        },
                    ),
                ),
            }
        }
    }

    /// What a poll of `dog` yields: a watchdog of an earlier session ends,
    /// the one of the last session decides by flag and time.
    pub open spec fn poll_outcome(&self, dog: Watchdog) -> WatchdogAction {
        if dog.session != self@.session_id {
            WatchdogAction::Exit
        } else {
            poll_decision(
                self@.recording,
                dog.elapsed_secs,
                self.settings().recording.max_duration_secs,
            )
        }
    }

    /// What a tick of `dog` yields once its sleep is accounted for: a
    /// watchdog of an earlier session finds nothing, the one of the last
    /// session judges the silence.
    pub open spec fn tick_outcome(&self, dog: Watchdog, now_secs: u64) -> TickOutcome {
        if dog.session != self@.session_id {
            TickOutcome::Continue
        } else {
            tick_decision(
                dog.elapsed_secs,
                self.settings().recording.disable_silence_detection,
                now_secs,
                self@.last_active,
            )
        }
    }

    /// Creates a controller with no session.
    pub fn new(config: Config) -> (recorder: AudioRecorder)
        ensures
            recorder@ == RecorderState::idle(),
            recorder.settings() == config,
    {
        AudioRecorder {
            config,
            recording: false,
            writer_open: false,
            last_active: 0,
            session: None,
            session_id: 0,
        }
    }

    /// Whether a session is recording.
    pub fn is_recording(&self) -> (recording: bool)
        ensures
            recording == self@.recording,
    {
        self.recording
    }

    /// Whether the output writer of the last session is still open.
    pub fn writer_is_open(&self) -> (open: bool)
        ensures
            open == self@.writer_open,
    {
        self.writer_open
    }

    /// When activity was last recorded, in seconds since the start of 1970.
    pub fn last_activity(&self) -> (secs: u64)
        ensures
            secs == self@.last_active,
    {
        self.last_active
    }

    /// The number of the last session that was created.
    pub fn session_id(&self) -> (id: u64)
        ensures
            id == self@.session_id,
    {
        self.session_id
    }

    /// The last session that was created and neither stopped nor given up.
    pub fn session(&self) -> (session: Option<&RecordingSession>)
        ensures
            match session {
                Some(s) => self@.session == Some(s@),
                None => self@.session is None,
            },
    {
        self.session.as_ref()
    }

    /// The configuration the controller was made with.
    pub fn config(&self) -> (config: &Config)
        ensures
            *config == self.settings(),
    {
        &self.config
    }

    /// Starts a session on the named device, or on the default device where
    /// no name is given or no listed device has that name.
    ///
    /// While a session records this does nothing and succeeds. Otherwise the
    /// session is planned from the host's devices and the configuration, and
    /// once planned it exists: the flag is set, the writer counts as open and
    /// the clock's time counts as the last activity. If it cannot be planned,
    /// nothing changes.
    pub fn start_with_device(
        &mut self,
        device_name: Option<String>,
        host: &HostSnapshot,
        clock: SessionClock,
    ) -> (outcome: Result<StartAction, RecorderError>)
        ensures
            final(self).settings() == old(self).settings(),
            old(self)@.recording ==> (outcome matches Ok(StartAction::AlreadyRecording)
                && *final(self) == *old(self)),
            !old(self)@.recording ==> match old(self).start_outcome(
                text_view(device_name),
                *host,
                clock,
            ) {
                Err(e) => (outcome matches Err(err) && err == e && *final(self) == *old(self)),
                Ok((device, session)) => {
                    &&& outcome matches Ok(StartAction::Begin(plan))
                    &&& plan.device == device
                    &&& plan.fell_back == falls_back(text_view(device_name), host.devices@)
                    &&& plan.stream == session.stream
                    &&& plan.header == session.stream.header()
                    &&& plan.output_file@ == session.output_file
                    &&& plan.watchdog == (Watchdog {
                        session: final(self)@.session_id,
                        elapsed_secs: 0,
                    })
                    &&& final(self)@ == old(self)@.started(session)
                },
            },
    {
        if self.recording {
            return Ok(StartAction::AlreadyRecording);
        }
        let path: String = match session_path(self.config.temp_dir.as_str(), clock.local_secs) {
            Some(p) => p,
            None => {
                return Err(RecorderError::InvalidClock);
            },
        };
        let device: DeviceChoice = match resolve_device(&device_name, host) {
            Ok(d) => d,
            Err(e) => {
                return Err(e);
            },
        };
        let (named, defaults) = match device {
            DeviceChoice::Listed(i) => (host.devices[i].name.is_some(), host.devices[i].defaults),
            DeviceChoice::Default => match &host.default_device {
                Some(d) => (d.name.is_some(), d.defaults),
                None => (false, None),
            },
        };
        if !named {
            return Err(RecorderError::DeviceNameUnavailable);
        }
        let defaults = match defaults {
            Some(d) => d,
            None => {
                return Err(RecorderError::NoDefaultConfig);
            },
        };
        let stream: StreamPlan = match negotiate(&defaults, self.config.recording.sample_rate) {
            Ok(s) => s,
            Err(e) => {
                return Err(e);
            },
        };
        let fell_back: bool = match &device_name {
            Some(_) => match device {
                DeviceChoice::Listed(_) => false,
                DeviceChoice::Default => true,
            },
            None => false,
        };
        let session_id: u64 = if self.session_id == u64::MAX {
            0
        } else {
            self.session_id + 1
        };
        self.session = Some(
            RecordingSession { output_file: path.clone(), started_at: clock.unix_secs, stream },
        );
        self.writer_open = true;
        self.last_active = clock.unix_secs;
        self.session_id = session_id;
        self.recording = true;
        Ok(
            StartAction::Begin(
                SessionPlan {
                    device,
                    fell_back,
                    stream,
                    header: stream.wav_header(),
                    output_file: path,
                    watchdog: Watchdog::new(session_id),
                },
            ),
        )
    }

    /// Starts a session on the default device.
    pub fn start(&mut self, host: &HostSnapshot, clock: SessionClock) -> (outcome: Result<
        StartAction,
        RecorderError,
    >)
        ensures
            final(self).settings() == old(self).settings(),
            old(self)@.recording ==> (outcome matches Ok(StartAction::AlreadyRecording)
                && *final(self) == *old(self)),
            !old(self)@.recording ==> match old(self).start_outcome(None, *host, clock) {
                Err(e) => (outcome matches Err(err) && err == e && *final(self) == *old(self)),
                Ok((device, session)) => {
                    &&& outcome matches Ok(StartAction::Begin(plan))
                    &&& plan.device == device
                    &&& !plan.fell_back
                    &&& plan.stream == session.stream
                    &&& plan.header == session.stream.header()
                    &&& plan.output_file@ == session.output_file
                    &&& plan.watchdog == (Watchdog {
                        session: final(self)@.session_id,
                        elapsed_secs: 0,
                    })
                    &&& final(self)@ == old(self)@.started(session)
                },
            },
    {
        self.start_with_device(None, host, clock)
    }

    /// Gives up a session that could not be carried out, because the output
    /// file, the stream or the directory could not be had. No session is left.
    pub fn cancel_start(&mut self)
        ensures
            final(self).settings() == old(self).settings(),
            final(self)@ == old(self)@.cancelled(),
    {
        self.recording = false;
        self.writer_open = false;
        self.session = None;
    }

    /// Stops the session and hands out the path of its output file.
    ///
    /// Without a session this does nothing and returns no path. It never
    /// fails.
    pub fn stop(&mut self) -> (outcome: Result<Option<String>, RecorderError>)
        ensures
            final(self).settings() == old(self).settings(),
            outcome matches Ok(path) && text_view(path) == old(self)@.stop_result(),
            final(self)@ == old(self)@.stopped(),
            old(self)@.recording ==> outcome matches Ok(Some(_)),
            !old(self)@.recording ==> (outcome matches Ok(None) && *final(self) == *old(self)),
    {
        proof {
            use_type_invariant(&*self);
        }
        if !self.recording {
            return Ok(None);
        }
        self.recording = false;
        let path: Option<String> = match &self.session {
            Some(session) => Some(session.output_file.clone()),
            None => None,
        };
        self.session = None;
        Ok(path)
    }

    /// The capture sink for a buffer of 16-bit samples that arrived at
    /// `now_secs`.
    ///
    /// While the session records, the buffer is written as it came, followed
    /// by a flush if it is longer than the flush threshold, and it sets the
    /// time of the last activity if silence detection is off or the buffer is
    /// loud. The first buffer after the session has ended closes the writer;
    /// later ones do nothing.
    pub fn capture_pcm(&mut self, data: &[i16], now_secs: u64) -> (action: SinkAction)
        ensures
            final(self).settings() == old(self).settings(),
            final(self)@ == old(self)@.after_buffer(
                counts_as_activity(
                    old(self).settings().recording.disable_silence_detection,
                    is_loud_pcm(data@),
                ),
                now_secs,
            ),
            action.step() == old(self)@.sink_step(),
            action matches SinkAction::Write { samples, flush } ==> (samples@ == data@ && flush
                == flush_after(data@.len())),
    {
        proof {
            use_type_invariant(&*self);
        }
        if self.recording {
            if self.config.recording.disable_silence_detection || loud_pcm(data) {
                self.last_active = now_secs;
            }
            SinkAction::Write {
                samples: pcm_from_pcm_buffer(data),
                flush: data.len() > FLUSH_THRESHOLD,
            }
        } else if self.writer_open {
            self.writer_open = false;
            SinkAction::Finalize
        } else {
            SinkAction::Nothing
        }
    }

    /// The capture sink for a buffer of float samples that arrived at
    /// `now_secs`. `scaled` holds each sample multiplied by full scale and
    /// truncated towards zero, `rms_bits` the bits of the root-mean-square of
    /// the raw samples as a single.
    ///
    /// It does what [`AudioRecorder::capture_pcm`] does, with the samples
    /// saturated to 16-bit PCM and the reading in place of the measurement.
    pub fn capture_float(&mut self, scaled: &[i32], rms_bits: u32, now_secs: u64) -> (action:
        SinkAction)
        ensures
            final(self).settings() == old(self).settings(),
            final(self)@ == old(self)@.after_buffer(
                counts_as_activity(
                    old(self).settings().recording.disable_silence_detection,
                    is_loud_rms(rms_bits),
                ),
                now_secs,
            ),
            action.step() == old(self)@.sink_step(),
            action matches SinkAction::Write { samples, flush } ==> (samples@
                == pcm_of_scaled_buffer(scaled@) && flush == flush_after(scaled@.len())),
    {
        proof {
            use_type_invariant(&*self);
        }
        if self.recording {
            if self.config.recording.disable_silence_detection || loud_rms(rms_bits) {
                self.last_active = now_secs;
            }
            SinkAction::Write {
                samples: pcm_from_scaled_buffer(scaled),
                flush: scaled.len() > FLUSH_THRESHOLD,
            }
        } else if self.writer_open {
            self.writer_open = false;
            SinkAction::Finalize
        } else {
            SinkAction::Nothing
        }
    }

    /// The capture sink's last act, for the moment at which the stream of a
    /// session that is over was torn down and no buffer will follow: the
    /// writer is closed if no buffer has closed it yet.
    pub fn stream_closed(&mut self) -> (action: SinkAction)
        ensures
            final(self).settings() == old(self).settings(),
            final(self)@ == old(self)@.after_teardown(),
            action.step() == old(self)@.teardown_step(),
            !(action is Write),
    {
        if !self.recording && self.writer_open {
            self.writer_open = false;
            SinkAction::Finalize
        } else {
            SinkAction::Nothing
        }
    }

    /// Polls the watchdog before a sleep. When the maximum duration is
    /// reached the session is ended here.
    pub fn watchdog_poll(&mut self, dog: &Watchdog) -> (action: WatchdogAction)
        ensures
            final(self).settings() == old(self).settings(),
            action == old(self).poll_outcome(*dog),
            final(self)@ == if action is StopForMaxDuration {
                old(self)@.halted()
            } else {
                old(self)@
            },
    {
        if dog.session != self.session_id {
            return WatchdogAction::Exit;
        }
        let action: WatchdogAction = dog.poll(
            self.recording,
            self.config.recording.max_duration_secs,
        );
        match action {
            WatchdogAction::StopForMaxDuration => {
                self.recording = false;
            },
            _ => {},
        }
        action
    }

    /// Ticks the watchdog after a sleep, at `now_secs`. During the warm-up
    /// the time of the last activity is refreshed; after it, silence that
    /// lasted too long ends the session here.
    pub fn watchdog_tick(&mut self, dog: &mut Watchdog, now_secs: u64) -> (outcome: TickOutcome)
        ensures
            final(self).settings() == old(self).settings(),
            final(dog).session == old(dog).session,
            final(dog).elapsed_secs == after_sleep(old(dog).elapsed_secs),
            outcome == old(self).tick_outcome(*final(dog), now_secs),
            final(self)@ == match outcome {
                TickOutcome::Continue => old(self)@,
                TickOutcome::Refresh => old(self)@.refreshed(now_secs),
                TickOutcome::StopForSilence => old(self)@.halted(),
            },
    {
        proof {
            use_type_invariant(&*self);
        }
        let outcome: TickOutcome = dog.tick(
            self.config.recording.disable_silence_detection,
            now_secs,
            self.last_active,
        );
        if dog.session != self.session_id {
            return TickOutcome::Continue;
        }
        match outcome {
            TickOutcome::Continue => {},
            TickOutcome::Refresh => {
                self.last_active = now_secs;
            },
            TickOutcome::StopForSilence => {
                self.recording = false;
            },
        }
        outcome
    }
}

} // verus!
