//! The session as the rest of the program sees it, and the controller that
//! moves it from one status to the next.

use vstd::prelude::*;
use crate::config::Config;
use crate::level::{clamp_level, LevelMeter};

verus! {

/// What the agent is doing; exactly one status holds at any time.
#[derive(Debug, Clone, PartialEq)]
pub enum AppStatus {
    Idle,
    Recording,
    Paused,
    Uploading,
    BackendOffline,
    Error(String),
}

/// The commands that move a session from one status to the next.
#[derive(Debug, Clone)]
pub enum AudioCommand {
    /// Begin the recording with this identifier.
    Start(i64),
    Pause,
    Resume,
    Stop,
}

/// What becomes of a recording once it has stopped.
#[derive(Debug, PartialEq, Eq, Clone, Copy, Structural)]
pub enum Disposition {
    /// The recording is marked complete.
    Finalize,
    /// The recording was shorter than the configured minimum and is thrown
    /// away.
    Discard,
}

/// What the owner of the capture thread has to do after a command.
#[derive(Debug, PartialEq, Eq, Clone, Copy, Structural)]
pub enum ControlAction {
    /// Set the recording flag and start capture and mixing for this
    /// recording; the first segment written bears `sequence`.
    Launch { recording_id: i64, sequence: i32 },
    /// Clear the recording flag and wait until the capture thread has ended.
    Halt,
    /// As `Halt`; then settle the recording with the remote service as
    /// `disposition` says, and report the end of that with
    /// `AppState::finish_session`.
    Close { recording_id: i64, duration_secs: u64, disposition: Disposition },
    /// The command does not apply in the present status; nothing changed.
    Rejected,
}

/// Milliseconds in a second.
pub const MILLIS_PER_SECOND: u64 = 1000;

/// Seconds in a minute.
pub const SECONDS_PER_MINUTE: u64 = 60;

/// Time from the start of an active interval until `now`, in milliseconds;
/// nothing if no interval is open or the clock reads earlier than its start.
pub open spec fn active_elapsed(start: Option<u64>, now: u64) -> nat {
    match start {
        Some(since) => if now >= since {
            (now - since) as nat
        } else {
            0
        },
        None => 0,
    }
}

/// A recording of `duration_secs` is discarded exactly if a minimum is
/// configured, is not zero, and the recording falls short of it.
pub open spec fn disposition_of(duration_secs: u64, min_minutes: Option<u32>) -> Disposition {
    match min_minutes {
        Some(minutes) => if minutes > 0 && duration_secs < minutes * SECONDS_PER_MINUTE {
            Disposition::Discard
        } else {
            Disposition::Finalize
        },
        None => Disposition::Finalize,
    }
}

pub fn disposition_for(duration_secs: u64, min_minutes: Option<u32>) -> (disposition: Disposition)
    ensures
        disposition == disposition_of(duration_secs, min_minutes),
{
    match min_minutes {
        Some(minutes) => {
            if minutes > 0 && duration_secs < minutes as u64 * SECONDS_PER_MINUTE {
                Disposition::Discard
            } else {
                Disposition::Finalize
            }
        },
        None => Disposition::Finalize,
    }
}

/// The line shown for a status; without a token the agent waits to be
/// paired, whatever its status.
pub open spec fn label_of(status: AppStatus, authenticated: bool) -> Seq<char> {
    if !authenticated {
        "Status: Waiting for connection..."@
    } else {
        match status {
            AppStatus::Idle => "Status: Ready to Record"@,
            AppStatus::Recording => "Status: Recording"@,
            AppStatus::Paused => "Status: Recording Paused"@,
            AppStatus::Uploading => "Status: Uploading Recording"@,
            AppStatus::BackendOffline => "Status: Backend Not Found..."@,
            AppStatus::Error(_) => "Status: Error"@,
        }
    }
}

/// The state that the controller, the control plane and the capture thread
/// share. Instants are milliseconds on one clock, durations milliseconds.
pub struct AppState {
    pub status: AppStatus,
    pub current_recording_id: Option<i64>,
    /// Number of the next segment to be written; counts from 1.
    pub current_sequence: i32,
    pub config: Config,
    /// Start of the active interval that is running, if one is.
    pub recording_start_time: Option<u64>,
    /// Sum of the active intervals that have ended.
    pub accumulated_duration: u64,
    /// The recording flag: set while capture and mixing are to go on.
    pub is_recording: bool,
    pub input_level: LevelMeter,
    pub output_level: LevelMeter,
    pub web_url: Option<String>,
    pub is_backend_connected: bool,
    pub update_available: bool,
    pub latest_version: Option<String>,
}

impl AppState {
    /// Whether no session is under way.
    pub open spec fn at_rest(&self) -> bool {
        self.status is Idle || self.status is BackendOffline
    }

    /// What every state reached through the controller satisfies: segments
    /// count from 1; the recording flag is set exactly while the status is
    /// `Recording`, and then a recording exists and its clock runs; a paused
    /// session has its recording; at rest nothing of a session is left.
    pub open spec fn wf(&self) -> bool {
        &&& self.current_sequence >= 1
        &&& self.is_recording <==> self.status is Recording
        &&& self.is_recording ==> self.current_recording_id is Some && self.recording_start_time is Some
        &&& self.status is Paused ==> self.current_recording_id is Some
        &&& self.at_rest() ==> self.current_recording_id is None && self.recording_start_time is None
            && self.accumulated_duration == 0 && self.current_sequence == 1
    }

    /// Active time of the session up to `now`, in milliseconds.
    pub open spec fn total_active(&self, now: u64) -> nat {
        self.accumulated_duration as nat + active_elapsed(self.recording_start_time, now)
    }

    /// The state with nothing of a session left in it, under `status`.
    pub open spec fn cleared(self, status: AppStatus) -> AppState {
        AppState {
            status,
            current_recording_id: None,
            current_sequence: 1,
            recording_start_time: None,
            accumulated_duration: 0,
            is_recording: false,
            ..self
        }
    }

    /// Whether `command` applies in this state. A session starts only from
    /// rest, pauses only while recording, resumes only while paused; it can
    /// be stopped at any time.
    pub open spec fn accepts(&self, command: AudioCommand) -> bool {
        match command {
            AudioCommand::Start(_) => self.at_rest(),
            AudioCommand::Pause => self.status is Recording,
            AudioCommand::Resume => self.status is Paused && self.current_recording_id is Some,
            AudioCommand::Stop => true,
        }
    }

    /// The state that follows when `command` is handled at `now`.
    pub open spec fn after(self, command: AudioCommand, now: u64) -> AppState {
        if !self.accepts(command) {
            self
        } else {
            match command {
                AudioCommand::Start(id) => AppState {
                    status: AppStatus::Recording,
                    current_recording_id: Some(id),
                    current_sequence: 1,
                    recording_start_time: Some(now),
                    accumulated_duration: 0,
                    is_recording: true,
                    ..self
                },
                AudioCommand::Pause => AppState {
                    status: AppStatus::Paused,
                    recording_start_time: None,
                    accumulated_duration: self.total_active(now) as u64,
                    is_recording: false,
                    ..self
                },
                AudioCommand::Resume => AppState {
                    status: AppStatus::Recording,
                    recording_start_time: Some(now),
                    is_recording: true,
                    ..self
                },
                AudioCommand::Stop => if self.current_recording_id is Some {
                    AppState {
                        status: AppStatus::Uploading,
                        recording_start_time: None,
                        accumulated_duration: 0,
                        is_recording: false,
                        ..self
                    }
                } else {
                    self.cleared(AppStatus::Idle)
                },
            }
        }
    }

    /// What the owner of the capture thread is told when `command` is
    /// handled at `now`.
    pub open spec fn action_for(self, command: AudioCommand, now: u64) -> ControlAction {
        if !self.accepts(command) {
            ControlAction::Rejected
        } else {
            match command {
                AudioCommand::Start(id) => ControlAction::Launch { recording_id: id, sequence: 1 },
                AudioCommand::Pause => ControlAction::Halt,
                AudioCommand::Resume => ControlAction::Launch {
                    recording_id: self.current_recording_id->0,
                    sequence: self.current_sequence,
                },
                AudioCommand::Stop => match self.current_recording_id {
                    Some(id) => ControlAction::Close {
                        recording_id: id,
                        duration_secs: (self.total_active(now) / MILLIS_PER_SECOND as nat) as u64,
                        disposition: disposition_of(
                            (self.total_active(now) / MILLIS_PER_SECOND as nat) as u64,
                            self.config.min_meeting_length,
                        ),
                    },
                    None => ControlAction::Halt,
                },
            }
        }
    }

    /// The state once the capture thread has reported that the segment
    /// before number `next` is closed: the counter moves forward, never
    /// back, and only while a recording exists.
    pub open spec fn published(self, next: i32) -> AppState {
        if self.current_recording_id is Some && next > self.current_sequence {
            AppState { current_sequence: next, ..self }
        } else {
            self
        }
    }

    /// A state at rest with the given settings.
    pub fn new(config: Config) -> (state: Self)
        ensures
            state.status is Idle,
            state.current_recording_id is None,
            state.current_sequence == 1,
            state.config == config,
            state.recording_start_time is None,
            state.accumulated_duration == 0,
            !state.is_recording,
            state.input_level@ == 0,
            state.output_level@ == 0,
            state.web_url is None,
            !state.is_backend_connected,
            !state.update_available,
            state.latest_version is None,
            state.wf(),
    {
        AppState {
            status: AppStatus::Idle,
            current_recording_id: None,
            current_sequence: 1,
            config,
            recording_start_time: None,
            accumulated_duration: 0,
            is_recording: false,
            input_level: LevelMeter::new(),
            output_level: LevelMeter::new(),
            web_url: None,
            is_backend_connected: false,
            update_available: false,
            latest_version: None,
        }
    }

    /// Whether a session may start.
    pub fn can_start(&self) -> (yes: bool)
        ensures
            yes == self.at_rest(),
    {
        match &self.status {
            AppStatus::Idle | AppStatus::BackendOffline => true,
            _ => false,
        }
    }

    /// Milliseconds of the running active interval at `now`.
    fn elapsed(&self, now: u64) -> (millis: u64)
        ensures
            millis == active_elapsed(self.recording_start_time, now),
    {
        match self.recording_start_time {
            Some(since) => if now >= since {
                now - since
            } else {
                0
            },
            None => 0,
        }
    }

    /// Handles one command at the instant `now`: moves the state on and
    /// says what is to be done about the capture thread.
    pub fn apply(&mut self, command: AudioCommand, now: u64) -> (action: ControlAction)
        requires
            command is Stop || (command is Pause && old(self).status is Recording) ==> old(self).total_active(now)
                <= u64::MAX,
        ensures
            *final(self) == old(self).after(command, now),
            action == old(self).action_for(command, now),
            old(self).wf() ==> final(self).wf(),
    {
        match command {
            AudioCommand::Start(id) => {
                if !self.can_start() {
                    return ControlAction::Rejected;
                }
                self.status = AppStatus::Recording;
                self.current_recording_id = Some(id);
                self.current_sequence = 1;
                self.recording_start_time = Some(now);
                self.accumulated_duration = 0;
                self.is_recording = true;
                ControlAction::Launch { recording_id: id, sequence: 1 }
            },
            AudioCommand::Pause => {
                match &self.status {
                    AppStatus::Recording => {},
                    _ => {
                        return ControlAction::Rejected;
                    },
                }
                let total: u64 = self.accumulated_duration + self.elapsed(now);
                self.status = AppStatus::Paused;
                self.recording_start_time = None;
                self.accumulated_duration = total;
                self.is_recording = false;
                ControlAction::Halt
            },
            AudioCommand::Resume => {
                match (&self.status, self.current_recording_id) {
                    (AppStatus::Paused, Some(id)) => {
                        self.status = AppStatus::Recording;
                        self.recording_start_time = Some(now);
                        self.is_recording = true;
                        ControlAction::Launch { recording_id: id, sequence: self.current_sequence }
                    },
                    _ => ControlAction::Rejected,
                }
            },
            AudioCommand::Stop => {
                let total: u64 = self.accumulated_duration + self.elapsed(now);
                match self.current_recording_id {
                    Some(id) => {
                        let duration_secs: u64 = total / MILLIS_PER_SECOND;
                        let disposition = disposition_for(duration_secs, self.config.min_meeting_length);
                        self.status = AppStatus::Uploading;
                        self.recording_start_time = None;
                        self.accumulated_duration = 0;
                        self.is_recording = false;
                        ControlAction::Close { recording_id: id, duration_secs, disposition }
                    },
                    None => {
                        self.reset(AppStatus::Idle);
                        ControlAction::Halt
                    },
                }
            },
        }
    }

    fn reset(&mut self, status: AppStatus)
        ensures
            *final(self) == old(self).cleared(status),
    {
        self.status = status;
        self.current_recording_id = None;
        self.current_sequence = 1;
        self.recording_start_time = None;
        self.accumulated_duration = 0;
        self.is_recording = false;
    }

    /// Ends the session once its recording has been settled with the remote
    /// service: the state returns to rest.
    pub fn finish_session(&mut self)
        ensures
            *final(self) == old(self).cleared(AppStatus::Idle),
            final(self).wf(),
    {
        self.reset(AppStatus::Idle);
    }

    /// Records that capture failed: the status shows the reason and the
    /// recording flag is cleared. Only a stop and a new start lead on.
    pub fn capture_failed(&mut self, reason: String)
        ensures
            *final(self) == (AppState { status: AppStatus::Error(reason), is_recording: false, ..*old(self) }),
            old(self).wf() ==> final(self).wf(),
    {
        self.status = AppStatus::Error(reason);
        self.is_recording = false;
    }

    /// Takes note that the segment before number `next` has been closed.
    /// The counter only moves forward, and only while a recording exists.
    pub fn publish_sequence(&mut self, next: i32)
        ensures
            *final(self) == old(self).published(next),
            final(self).current_sequence >= old(self).current_sequence,
            old(self).wf() ==> final(self).wf(),
    {
        if self.current_recording_id.is_some() && next > self.current_sequence {
            self.current_sequence = next;
        }
    }

    /// Takes note of a health check of the remote service. An unreachable
    /// service shows on an idle agent only, and only an agent shown as
    /// offline returns to idle; any other status is left alone.
    pub fn backend_checked(&mut self, reachable: bool)
        ensures
            *final(self) == (AppState {
                is_backend_connected: reachable,
                status: if reachable && old(self).status is BackendOffline {
                    AppStatus::Idle
                } else if !reachable && old(self).status is Idle {
                    AppStatus::BackendOffline
                } else {
                    old(self).status
                },
                ..*old(self)
            }),
            old(self).wf() ==> final(self).wf(),
    {
        self.is_backend_connected = reachable;
        if reachable {
            let offline = match &self.status {
                AppStatus::BackendOffline => true,
                _ => false,
            };
            if offline {
                self.status = AppStatus::Idle;
            }
        } else {
            let idle = match &self.status {
                AppStatus::Idle => true,
                _ => false,
            };
            if idle {
                self.status = AppStatus::BackendOffline;
            }
        }
    }

    /// Whole seconds of active time to show at `now`: the running interval
    /// counts only while the status is `Recording`.
    pub open spec fn shown_seconds(&self, now: u64) -> nat {
        if self.status is Recording {
            self.total_active(now) / MILLIS_PER_SECOND as nat
        } else {
            self.accumulated_duration as nat / MILLIS_PER_SECOND as nat
        }
    }

    pub fn duration_seconds(&self, now: u64) -> (seconds: u64)
        requires
            self.status is Recording ==> self.total_active(now) <= u64::MAX,
        ensures
            seconds == self.shown_seconds(now),
    {
        let recording = match &self.status {
            AppStatus::Recording => true,
            _ => false,
        };
        if recording {
            (self.accumulated_duration + self.elapsed(now)) / MILLIS_PER_SECOND
        } else {
            self.accumulated_duration / MILLIS_PER_SECOND
        }
    }

    /// Records a microphone level; see `LevelMeter::record`.
    pub fn record_input_level(&mut self, level: u32)
        ensures
            final(self).input_level@ == (if clamp_level(level) > old(self).input_level@ {
                clamp_level(level)
            } else {
                old(self).input_level@
            }),
            *final(self) == (AppState { input_level: final(self).input_level, ..*old(self) }),
    {
        self.input_level.record(level);
    }

    /// Records a system-audio level; see `LevelMeter::record`.
    pub fn record_output_level(&mut self, level: u32)
        ensures
            final(self).output_level@ == (if clamp_level(level) > old(self).output_level@ {
                clamp_level(level)
            } else {
                old(self).output_level@
            }),
            *final(self) == (AppState { output_level: final(self).output_level, ..*old(self) }),
    {
        self.output_level.record(level);
    }

    /// Returns the highest microphone level since the last call and resets
    /// the meter.
    pub fn take_input_level(&mut self) -> (level: u32)
        ensures
            level == old(self).input_level@,
            final(self).input_level@ == 0,
            *final(self) == (AppState { input_level: final(self).input_level, ..*old(self) }),
    {
        self.input_level.take()
    }

    /// Returns the highest system-audio level since the last call and resets
    /// the meter.
    pub fn take_output_level(&mut self) -> (level: u32)
        ensures
            level == old(self).output_level@,
            final(self).output_level@ == 0,
            *final(self) == (AppState { output_level: final(self).output_level, ..*old(self) }),
    {
        self.output_level.take()
    }

    /// The line that tells the user what the agent is doing.
    pub fn status_label(&self) -> (label: &'static str)
        ensures
            label@ == label_of(self.status, self.config.api_token@.len() > 0),
    {
        if !self.is_authenticated() {
            "Status: Waiting for connection..."
        } else {
            match &self.status {
                AppStatus::Idle => "Status: Ready to Record",
                AppStatus::Recording => "Status: Recording",
                AppStatus::Paused => "Status: Recording Paused",
                AppStatus::Uploading => "Status: Uploading Recording",
                AppStatus::BackendOffline => "Status: Backend Not Found...",
                AppStatus::Error(_) => "Status: Error",
            }
        }
    }

    /// Whether a token for the remote service is configured.
    pub fn is_authenticated(&self) -> (yes: bool)
        ensures
            yes == (self.config.api_token@.len() > 0),
    {
        self.config.has_token()
    }
}

/// Segment numbers survive a pause: when a recording is paused and later
/// resumed, capture is launched for the same recording with the number that
/// was current when the pause came, whatever the two instants are.
pub proof fn lemma_resume_continues_numbering(state: AppState, paused_at: u64, resumed_at: u64)
    requires
        state.wf(),
        state.status is Recording,
    ensures
        state.action_for(AudioCommand::Pause, paused_at) == ControlAction::Halt,
        state.after(AudioCommand::Pause, paused_at).action_for(AudioCommand::Resume, resumed_at) == (
        ControlAction::Launch {
            recording_id: state.current_recording_id->0,
            sequence: state.current_sequence,
        }),
        state.after(AudioCommand::Pause, paused_at).after(AudioCommand::Resume, resumed_at).current_sequence
            == state.current_sequence,
        state.after(AudioCommand::Pause, paused_at).after(AudioCommand::Resume, resumed_at).current_recording_id
            == state.current_recording_id,
{
}

/// Within one recording the segment counter never goes back: no command
/// changes it while the recording stays the same, and a report from the
/// capture thread only raises it.
pub proof fn lemma_sequence_never_decreases(state: AppState, command: AudioCommand, now: u64, next: i32)
    requires
        state.wf(),
        state.current_recording_id is Some,
    ensures
        state.after(command, now).current_recording_id == state.current_recording_id ==> state.after(
            command,
            now,
        ).current_sequence == state.current_sequence,
        state.published(next).current_sequence >= state.current_sequence,
        state.published(next).current_recording_id == state.current_recording_id,
{
}

/// At most one capture thread runs: capture is launched only while the
/// recording flag is clear, and every launch sets it; the flag is cleared
/// by the commands that wait for the thread to end.
pub proof fn lemma_one_capture_at_a_time(state: AppState, command: AudioCommand, now: u64)
    requires
        state.wf(),
    ensures
        state.action_for(command, now) is Launch ==> !state.is_recording && state.after(command, now).is_recording,
        state.action_for(command, now) is Halt || state.action_for(command, now) is Close ==> !state.after(
            command,
            now,
        ).is_recording,
        state.action_for(command, now) is Rejected ==> state.after(command, now) == state,
{
}

/// The time shown for a session is the sum of its active intervals: a
/// pause adds the interval that was running to the intervals before it, and
/// the stop reports that sum in whole seconds.
pub proof fn lemma_active_time_adds_up(state: AppState, paused_at: u64, stopped_at: u64)
    requires
        state.wf(),
        state.status is Recording,
        state.total_active(paused_at) <= u64::MAX,
    ensures
        state.after(AudioCommand::Pause, paused_at).accumulated_duration == state.accumulated_duration
            + active_elapsed(state.recording_start_time, paused_at),
        state.after(AudioCommand::Pause, paused_at).total_active(stopped_at) == state.total_active(paused_at),
        state.after(AudioCommand::Pause, paused_at).action_for(AudioCommand::Stop, stopped_at) matches ControlAction::Close {
            duration_secs,
            ..
        } && duration_secs == state.total_active(paused_at) / MILLIS_PER_SECOND as nat,
{
}

} // verus!
