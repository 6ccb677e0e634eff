use vstd::prelude::*;

verus! {

/// Bits per sample of the recording: samples are stored as 32-bit floats.
pub const RECORDING_BITS: u16 = 32;

/// The errors of a capture session.
#[derive(Clone, Copy, Debug, PartialEq, Eq, Structural)]
pub enum CaptureError {
    /// No input device, or the host refused its format.
    DeviceUnavailable,
    /// The hardware stream could not be created or started.
    StreamInitFailed,
    /// The output file could not be created.
    FileCreateFailed,
    /// A start was asked for while a session is under way.
    AlreadyRecording,
    /// A stop was asked for while no session is active.
    NotRecording,
    /// A sample could not be written; the session goes on.
    SampleWriteFailed,
    /// The output file could not be finalized; the session still ends.
    FinalizeFailed,
}

/// The layout of the output file, fixed when it is created.
#[derive(Clone, Copy, Debug, PartialEq, Eq, Structural)]
pub struct OutputFormat {
    pub channels: u16,
    pub sample_rate: u32,
    pub bits_per_sample: u16,
    pub float_samples: bool,
}

/// The format of the recording for a device's channel count and rate.
pub open spec fn spec_recording_format(channels: u16, sample_rate: u32) -> OutputFormat {
    OutputFormat {
        channels,
        sample_rate,
        bits_per_sample: RECORDING_BITS,
        float_samples: true,
    }
}

pub fn recording_format(channels: u16, sample_rate: u32) -> (f: OutputFormat)
    ensures
        f == spec_recording_format(channels, sample_rate),
{
    OutputFormat { channels, sample_rate, bits_per_sample: RECORDING_BITS, float_samples: true }
}

/// Where a session stands. A start runs through `Acquiring`, `Opening` and
/// `Launching`; a stop through `Stopping`, `Draining` and `Finalizing`.
#[derive(Clone, Copy, Debug, PartialEq, Eq, Structural)]
pub enum Phase {
    /// No session; a start may begin.
    Idle,
    /// Waiting for the input device and its format.
    Acquiring,
    /// Waiting for the output file to be created.
    Opening,
    /// Waiting for the hardware stream to start.
    Launching,
    /// Recording.
    Active,
    /// Stop observed; waiting for the hardware stream to be dropped.
    Stopping,
    /// Stream dropped; waiting for the queued blocks to be drained.
    Draining,
    /// Queue drained; waiting for the output file to be finalized.
    Finalizing,
}

/// What the outside world reports to the session.
#[derive(Clone, Copy, Debug, PartialEq, Eq, Structural)]
pub enum Event {
    /// The input device was opened with this format.
    DeviceReady { channels: u16, sample_rate: u32 },
    /// There is no input device, or it could not be opened.
    DeviceMissing,
    /// The output file was created.
    FileCreated,
    /// The output file could not be created.
    FileFailed,
    /// The hardware stream is running.
    StreamStarted,
    /// The hardware stream could not be built or started.
    StreamFailed,
    /// A stop signal arrived.
    StopRequested,
    /// The hardware stream was dropped: no more blocks will come.
    StreamDropped,
    /// Every queued block has been recorded.
    QueueDrained,
    /// The output file was finalized.
    FileFinalized,
    /// Finalizing the output file failed.
    FinalizeError,
}

/// What the session asks the outside world to do next.
#[derive(Clone, Copy, Debug, PartialEq, Eq, Structural)]
pub enum Action {
    /// Open the input device and report its format.
    AcquireDevice,
    /// Create the output file at the session's path with this format.
    CreateFile { format: OutputFormat },
    /// Build and start the hardware stream.
    StartStream,
    /// The start succeeded: recording to the session's path.
    Started,
    /// Drop the hardware stream.
    DropStream,
    /// Record every block still queued.
    DrainQueue,
    /// Finalize the output file.
    FinalizeFile,
    /// The stop succeeded: the file at the session's path is complete.
    Stopped,
    /// Report `error`; when `discard_file` holds, close and remove the
    /// partly created output file first.
    Fail { error: CaptureError, discard_file: bool },
    /// The event does not apply in this phase; nothing to do.
    Ignore,
}

/// The state of a session as the contracts see it.
pub struct SessionView {
    pub phase: Phase,
    pub path: Seq<char>,
    pub format: Option<OutputFormat>,
}

/// The idle state, with no path and no format.
pub open spec fn idle_view() -> SessionView {
    SessionView { phase: Phase::Idle, path: Seq::empty(), format: None }
}

/// A device format the recording can use: at least one channel, a rate above 0.
pub open spec fn usable_format(channels: u16, sample_rate: u32) -> bool {
    channels > 0 && sample_rate > 0
}

/// The state after a start request for `path`.
pub open spec fn after_start(s: SessionView, path: Seq<char>) -> SessionView {
    if s.phase == Phase::Idle {
        SessionView { phase: Phase::Acquiring, path, format: None }
    } else {
        s
    }
}

/// The action that answers a start request.
pub open spec fn start_action(s: SessionView) -> Action {
    if s.phase == Phase::Idle {
        Action::AcquireDevice
    } else {
        Action::Fail { error: CaptureError::AlreadyRecording, discard_file: false }
    }
}

/// The state after `e`.
pub open spec fn next_state(s: SessionView, e: Event) -> SessionView {
    match (s.phase, e) {
        (Phase::Acquiring, Event::DeviceReady { channels, sample_rate }) => {
            if usable_format(channels, sample_rate) {
                SessionView {
                    phase: Phase::Opening,
                    format: Some(spec_recording_format(channels, sample_rate)),
                    ..s
                }
            } else {
                idle_view()
            }
        },
        (Phase::Acquiring, Event::DeviceMissing) => idle_view(),
        (Phase::Opening, Event::FileCreated) => SessionView { phase: Phase::Launching, ..s },
        (Phase::Opening, Event::FileFailed) => idle_view(),
        (Phase::Launching, Event::StreamStarted) => SessionView { phase: Phase::Active, ..s },
        (Phase::Launching, Event::StreamFailed) => idle_view(),
        (Phase::Active, Event::StopRequested) => SessionView { phase: Phase::Stopping, ..s },
        (Phase::Stopping, Event::StreamDropped) => SessionView { phase: Phase::Draining, ..s },
        (Phase::Draining, Event::QueueDrained) => SessionView { phase: Phase::Finalizing, ..s },
        (Phase::Finalizing, Event::FileFinalized) => idle_view(),
        (Phase::Finalizing, Event::FinalizeError) => idle_view(),
        _ => s,
    }
}

/// The action that answers `e`.
pub open spec fn next_action(s: SessionView, e: Event) -> Action {
    match (s.phase, e) {
        (Phase::Acquiring, Event::DeviceReady { channels, sample_rate }) => {
            if usable_format(channels, sample_rate) {
                Action::CreateFile { format: spec_recording_format(channels, sample_rate) }
            } else {
                Action::Fail { error: CaptureError::DeviceUnavailable, discard_file: false }
            }
        },
        (Phase::Acquiring, Event::DeviceMissing) => Action::Fail {
            error: CaptureError::DeviceUnavailable,
            discard_file: false,
        },
        (Phase::Opening, Event::FileCreated) => Action::StartStream,
        (Phase::Opening, Event::FileFailed) => Action::Fail {
            error: CaptureError::FileCreateFailed,
            discard_file: false,
        },
        (Phase::Launching, Event::StreamStarted) => Action::Started,
        (Phase::Launching, Event::StreamFailed) => Action::Fail {
            error: CaptureError::StreamInitFailed,
            discard_file: true,
        },
        (Phase::Active, Event::StopRequested) => Action::DropStream,
        (_, Event::StopRequested) => Action::Fail {
            error: CaptureError::NotRecording,
            discard_file: false,
        },
        (Phase::Stopping, Event::StreamDropped) => Action::DrainQueue,
        (Phase::Draining, Event::QueueDrained) => Action::FinalizeFile,
        (Phase::Finalizing, Event::FileFinalized) => Action::Stopped,
        (Phase::Finalizing, Event::FinalizeError) => Action::Fail {
            error: CaptureError::FinalizeFailed,
            discard_file: false,
        },
        _ => Action::Ignore,
    }
}

/// The state after a start request for `path` whose device reports
/// `channels` and `sample_rate`, whose file is created and whose stream starts.
pub open spec fn started(path: Seq<char>, channels: u16, sample_rate: u32) -> SessionView {
    let s1 = after_start(idle_view(), path);
    let s2 = next_state(s1, Event::DeviceReady { channels, sample_rate });
    let s3 = next_state(s2, Event::FileCreated);
    next_state(s3, Event::StreamStarted)
}

/// The state after a stop signal on `s`, once the stream is dropped, the
/// queue drained, and the file finalized (`finalized`) or not.
pub open spec fn stopped(s: SessionView, finalized: bool) -> SessionView {
    let s1 = next_state(s, Event::StopRequested);
    let s2 = next_state(s1, Event::StreamDropped);
    let s3 = next_state(s2, Event::QueueDrained);
    next_state(s3, if finalized { Event::FileFinalized } else { Event::FinalizeError })
}

/// A successful start makes the session active, recording to its path with
/// the device's format; a second start before any stop then fails with
/// `AlreadyRecording` and leaves the session, its path and its format as
/// they were.
pub proof fn lemma_second_start_rejected(
    first: Seq<char>,
    second: Seq<char>,
    channels: u16,
    sample_rate: u32,
)
    requires
        usable_format(channels, sample_rate),
    ensures
        started(first, channels, sample_rate) == (SessionView {
            phase: Phase::Active,
            path: first,
            format: Some(spec_recording_format(channels, sample_rate)),
        }),
        start_action(started(first, channels, sample_rate)) == (Action::Fail {
            error: CaptureError::AlreadyRecording,
            discard_file: false,
        }),
        after_start(started(first, channels, sample_rate), second) == started(
            first,
            channels,
            sample_rate,
        ),
{
}

/// A stop before any successful start (idle, or a start still under way)
/// fails with `NotRecording`, changes nothing and asks for no file.
pub proof fn lemma_stop_without_start(s: SessionView)
    requires
        s.phase == Phase::Idle || s.phase == Phase::Acquiring || s.phase == Phase::Opening
            || s.phase == Phase::Launching,
    ensures
        next_state(s, Event::StopRequested) == s,
        next_action(s, Event::StopRequested) == (Action::Fail {
            error: CaptureError::NotRecording,
            discard_file: false,
        }),
{
}

/// A stop that runs to its end returns the session to idle, whether or not
/// the file could be finalized, and the next start request is taken.
pub proof fn lemma_start_stop_start(
    first: Seq<char>,
    second: Seq<char>,
    channels: u16,
    sample_rate: u32,
    finalized: bool,
)
    requires
        usable_format(channels, sample_rate),
    ensures
        stopped(started(first, channels, sample_rate), finalized) == idle_view(),
        start_action(stopped(started(first, channels, sample_rate), finalized))
            == Action::AcquireDevice,
        after_start(stopped(started(first, channels, sample_rate), finalized), second) == (
        SessionView { phase: Phase::Acquiring, path: second, format: None }),
{
}

/// The teardown runs in a fixed order: the stream is dropped first, then the
/// queue is drained, and only then is the file finalized.
pub proof fn lemma_teardown_order(s: SessionView)
    requires
        s.phase == Phase::Active,
    ensures
        next_action(s, Event::StopRequested) == Action::DropStream,
        next_action(next_state(s, Event::StopRequested), Event::StreamDropped)
            == Action::DrainQueue,
        next_action(
            next_state(next_state(s, Event::StopRequested), Event::StreamDropped),
            Event::QueueDrained,
        ) == Action::FinalizeFile,
        forall|e: Event|
            e != Event::QueueDrained ==> next_action(
                next_state(next_state(s, Event::StopRequested), Event::StreamDropped),
                e,
            ) != Action::FinalizeFile,
        forall|e: Event|
            next_action(next_state(s, Event::StopRequested), e) != Action::FinalizeFile,
{
}

/// When no input device is reported, the start fails with
/// `DeviceUnavailable`, the session is idle again, and no file was asked for.
pub proof fn lemma_missing_device(path: Seq<char>)
    ensures
        start_action(idle_view()) == Action::AcquireDevice,
        next_state(after_start(idle_view(), path), Event::DeviceMissing) == idle_view(),
        next_action(after_start(idle_view(), path), Event::DeviceMissing) == (Action::Fail {
            error: CaptureError::DeviceUnavailable,
            discard_file: false,
        }),
{
}

/// The one capture session of the recorder. It owns the output path and the
/// negotiated format while a session is under way; the device, stream and
/// file themselves are held by the caller, which performs each action it is
/// given and reports the outcome as an event.
pub struct CaptureSession {
    phase: Phase,
    path: String,
    format: Option<OutputFormat>,
}

impl View for CaptureSession {
    type V = SessionView;

    closed spec fn view(&self) -> SessionView {
        SessionView { phase: self.phase, path: self.path@, format: self.format }
    }
}

impl CaptureSession {
    /// A session in the idle phase.
    pub fn new() -> (s: Self)
        ensures
            s@ == idle_view(),
    {
        CaptureSession { phase: Phase::Idle, path: String::new(), format: None }
    }

    pub fn phase(&self) -> (p: Phase)
        ensures
            p == self@.phase,
    {
        self.phase
    }

    /// The output path of the session under way (empty when idle).
    pub fn output_path(&self) -> (p: &String)
        ensures
            p@ == self@.path,
    {
        &self.path
    }

    /// The negotiated output format, once the device has reported it.
    pub fn format(&self) -> (f: Option<OutputFormat>)
        ensures
            f == self@.format,
    {
        self.format
    }

    /// Whether a session is recording.
    pub fn is_active(&self) -> (b: bool)
        ensures
            b == (self@.phase == Phase::Active),
    {
        self.phase == Phase::Active
    }

    /// Asks for a session that records to `path`. From the idle phase this
    /// begins the start; in any other phase it fails with `AlreadyRecording`
    /// and changes nothing.
    pub fn request_start(&mut self, path: String) -> (a: Action)
        ensures
            final(self)@ == after_start(old(self)@, path@),
            a == start_action(old(self)@),
    {
        if self.phase == Phase::Idle {
            self.phase = Phase::Acquiring;
            self.path = path;
            self.format = None;
            Action::AcquireDevice
        } else {
            Action::Fail { error: CaptureError::AlreadyRecording, discard_file: false }
        }
    }

    fn reset(&mut self)
        ensures
            final(self)@ == idle_view(),
    {
        self.phase = Phase::Idle;
        self.path = String::new();
        self.format = None;
    }

    /// Takes one event into account and says what to do next.
    pub fn handle(&mut self, e: Event) -> (a: Action)
        ensures
            final(self)@ == next_state(old(self)@, e),
            a == next_action(old(self)@, e),
    {
        match (self.phase, e) {
            (Phase::Acquiring, Event::DeviceReady { channels, sample_rate }) => {
                if channels > 0 && sample_rate > 0 {
                    let format = recording_format(channels, sample_rate);
                    self.phase = Phase::Opening;
                    self.format = Some(format);
                    Action::CreateFile { format }
                } else {
                    self.reset();
                    Action::Fail { error: CaptureError::DeviceUnavailable, discard_file: false }
                }
            },
            (Phase::Acquiring, Event::DeviceMissing) => {
                self.reset();
                Action::Fail { error: CaptureError::DeviceUnavailable, discard_file: false }
            },
            (Phase::Opening, Event::FileCreated) => {
                self.phase = Phase::Launching;
                Action::StartStream
            },
            (Phase::Opening, Event::FileFailed) => {
                self.reset();
                Action::Fail { error: CaptureError::FileCreateFailed, discard_file: false }
            },
            (Phase::Launching, Event::StreamStarted) => {
                self.phase = Phase::Active;
                Action::Started
            },
            (Phase::Launching, Event::StreamFailed) => {
                self.reset();
                Action::Fail { error: CaptureError::StreamInitFailed, discard_file: true }
            },
            (Phase::Active, Event::StopRequested) => {
                self.phase = Phase::Stopping;
                Action::DropStream
            },
            (_, Event::StopRequested) => {
                Action::Fail { error: CaptureError::NotRecording, discard_file: false }
            },
            (Phase::Stopping, Event::StreamDropped) => {
                self.phase = Phase::Draining;
                Action::DrainQueue
            },
            (Phase::Draining, Event::QueueDrained) => {
                self.phase = Phase::Finalizing;
                Action::FinalizeFile
            },
            (Phase::Finalizing, Event::FileFinalized) => {
                self.reset();
                Action::Stopped
            },
            (Phase::Finalizing, Event::FinalizeError) => {
                self.reset();
                Action::Fail { error: CaptureError::FinalizeFailed, discard_file: false }
            },
            _ => Action::Ignore,
        }
    }
}

} // verus!
