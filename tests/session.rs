use openwhisper::{Action, CaptureError, CaptureSession, Event, OutputFormat, Phase};

fn start(session: &mut CaptureSession, path: &str) -> Vec<Action> {
    let mut actions = vec![session.request_start(path.to_string())];
    actions.push(session.handle(Event::DeviceReady { channels: 1, sample_rate: 16000 }));
    actions.push(session.handle(Event::FileCreated));
    actions.push(session.handle(Event::StreamStarted));
    actions
}

fn stop(session: &mut CaptureSession, finalized: bool) -> Vec<Action> {
    let mut actions = vec![session.handle(Event::StopRequested)];
    actions.push(session.handle(Event::StreamDropped));
    actions.push(session.handle(Event::QueueDrained));
    let last = if finalized { Event::FileFinalized } else { Event::FinalizeError };
    actions.push(session.handle(last));
    actions
}

#[test]
fn successful_start_runs_every_step() {
    let mut session = CaptureSession::new();
    let actions = start(&mut session, "/tmp/a.wav");
    assert_eq!(
        actions,
        vec![
            Action::AcquireDevice,
            Action::CreateFile {
                format: OutputFormat {
                    channels: 1,
                    sample_rate: 16000,
                    bits_per_sample: 32,
                    float_samples: true
                }
            },
            Action::StartStream,
            Action::Started,
        ]
    );
    assert_eq!(session.phase(), Phase::Active);
    assert!(session.is_active());
    assert_eq!(session.output_path(), "/tmp/a.wav");
}

#[test]
fn second_start_is_rejected() {
    let mut session = CaptureSession::new();
    start(&mut session, "/tmp/first.wav");
    let format = session.format();
    let a = session.request_start("/tmp/second.wav".to_string());
    assert_eq!(
        a,
        Action::Fail { error: CaptureError::AlreadyRecording, discard_file: false }
    );
    assert_eq!(session.phase(), Phase::Active);
    assert_eq!(session.output_path(), "/tmp/first.wav");
    assert_eq!(session.format(), format);
}

#[test]
fn start_during_start_is_rejected() {
    let mut session = CaptureSession::new();
    session.request_start("/tmp/first.wav".to_string());
    let a = session.request_start("/tmp/second.wav".to_string());
    assert_eq!(
        a,
        Action::Fail { error: CaptureError::AlreadyRecording, discard_file: false }
    );
    assert_eq!(session.phase(), Phase::Acquiring);
    assert_eq!(session.output_path(), "/tmp/first.wav");
}

#[test]
fn stop_without_start_is_rejected() {
    let mut session = CaptureSession::new();
    let a = session.handle(Event::StopRequested);
    assert_eq!(a, Action::Fail { error: CaptureError::NotRecording, discard_file: false });
    assert_eq!(session.phase(), Phase::Idle);
    assert_eq!(session.output_path(), "");
}

#[test]
fn start_stop_start_succeeds() {
    let mut session = CaptureSession::new();
    start(&mut session, "/tmp/a.wav");
    let actions = stop(&mut session, true);
    assert_eq!(
        actions,
        vec![Action::DropStream, Action::DrainQueue, Action::FinalizeFile, Action::Stopped]
    );
    assert_eq!(session.phase(), Phase::Idle);
    assert_eq!(session.request_start("/tmp/b.wav".to_string()), Action::AcquireDevice);
    assert_eq!(session.phase(), Phase::Acquiring);
}

#[test]
fn failed_finalize_still_returns_to_idle() {
    let mut session = CaptureSession::new();
    start(&mut session, "/tmp/a.wav");
    let actions = stop(&mut session, false);
    assert_eq!(
        actions[3],
        Action::Fail { error: CaptureError::FinalizeFailed, discard_file: false }
    );
    assert_eq!(session.phase(), Phase::Idle);
    assert_eq!(session.request_start("/tmp/b.wav".to_string()), Action::AcquireDevice);
}

#[test]
fn missing_device_creates_no_file() {
    let mut session = CaptureSession::new();
    let first = session.request_start("/tmp/a.wav".to_string());
    let second = session.handle(Event::DeviceMissing);
    assert_eq!(first, Action::AcquireDevice);
    assert_eq!(
        second,
        Action::Fail { error: CaptureError::DeviceUnavailable, discard_file: false }
    );
    assert_eq!(session.phase(), Phase::Idle);
    assert_eq!(session.format(), None);
}

#[test]
fn unusable_device_format_is_unavailable() {
    let mut session = CaptureSession::new();
    session.request_start("/tmp/a.wav".to_string());
    let a = session.handle(Event::DeviceReady { channels: 0, sample_rate: 48000 });
    assert_eq!(a, Action::Fail { error: CaptureError::DeviceUnavailable, discard_file: false });
    assert_eq!(session.phase(), Phase::Idle);
}

#[test]
fn file_failure_aborts_start() {
    let mut session = CaptureSession::new();
    session.request_start("/tmp/a.wav".to_string());
    session.handle(Event::DeviceReady { channels: 2, sample_rate: 48000 });
    let a = session.handle(Event::FileFailed);
    assert_eq!(a, Action::Fail { error: CaptureError::FileCreateFailed, discard_file: false });
    assert_eq!(session.phase(), Phase::Idle);
}

#[test]
fn stream_failure_discards_file() {
    let mut session = CaptureSession::new();
    session.request_start("/tmp/a.wav".to_string());
    session.handle(Event::DeviceReady { channels: 2, sample_rate: 48000 });
    session.handle(Event::FileCreated);
    let a = session.handle(Event::StreamFailed);
    assert_eq!(a, Action::Fail { error: CaptureError::StreamInitFailed, discard_file: true });
    assert_eq!(session.phase(), Phase::Idle);
}

#[test]
fn events_out_of_phase_are_ignored() {
    let mut session = CaptureSession::new();
    assert_eq!(session.handle(Event::QueueDrained), Action::Ignore);
    start(&mut session, "/tmp/a.wav");
    assert_eq!(session.handle(Event::FileFinalized), Action::Ignore);
    assert_eq!(session.handle(Event::DeviceMissing), Action::Ignore);
    assert_eq!(session.phase(), Phase::Active);
    assert_eq!(session.handle(Event::StopRequested), Action::DropStream);
    assert_eq!(session.handle(Event::QueueDrained), Action::Ignore);
    assert_eq!(session.phase(), Phase::Stopping);
    assert_eq!(
        session.handle(Event::StopRequested),
        Action::Fail { error: CaptureError::NotRecording, discard_file: false }
    );
}
