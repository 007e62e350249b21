use kcsdi_gui::acquisition::{
    AcquisitionGroup, AcquisitionSettings, Checks, CompletedSweep, SweepPlan, TraceId, TraceRequest,
};
use kcsdi_gui::device_worker::{
    advance_wait, after_send, connect_result, connection_failed, discard_job, fail, handle,
    handle_or_defer, may_send, obsolete_token, preview_due, start_sweep, status_command_gap,
    status_result, stop_result, Clock, DeviceCall, Effect, GapStep, ListRun, ListStep, PassStep,
    RecordKey, RecordResult, RecordingState, RunPhase, SendOutcome, SendStep, SweepRequest,
    WorkerIdentity, WorkerState, PREVIEW_INTERVAL, STATUS_COMMAND_GAP,
};
use kcsdi_gui::messages::{
    CommandEnvelope, Context, EventEnvelope, Message, PassError, RunProgress, Token, WorkerCommand,
    WorkerEvent,
};
use kcsdi_gui::model::{
    Cal, CalibrationPhase, CalibrationReport, ConnectionTarget, DeviceError, DeviceInfo,
    DeviceStatus, Format, HealthSnapshot, Lo, PointSettings, Rbw, Real, S11Params, S21Params,
    SourceOutputState, SourceReport, SpecParams, SweepPoint,
};
use std::sync::Arc;

const MILLISECOND: u128 = 1_000_000;
const NOW: u128 = 1_000_000_000;
const R10K: Rbw = Rbw { hz: 10_000 };

fn s11() -> S11Params {
    S11Params {
        cal: Cal::CalOff,
        format: Format::Z,
        points: 3,
        start_hz: 1_000_000,
        stop_hz: 2_000_000,
        rbw: Some(R10K),
    }
}

fn spec() -> SpecParams {
    SpecParams {
        cal: Cal::CalOff,
        lo: Lo::HighLo,
        points: 3,
        start_hz: 1_000_000,
        stop_hz: 2_000_000,
        rbw: R10K,
        ref_level_dbm: -10,
    }
}

fn s21() -> S21Params {
    S21Params {
        cal: Cal::CalOff,
        format: Format::Delay,
        lo: Lo::HighLo,
        points: 3,
        start_hz: 1_000_000,
        stop_hz: 2_000_000,
        rbw: Some(R10K),
    }
}

fn plan(settings: AcquisitionSettings) -> SweepPlan {
    SweepPlan::from_requests(vec![TraceRequest { id: TraceId(1), settings, device: None }]).unwrap()
}

fn two_groups() -> SweepPlan {
    SweepPlan::from_requests(vec![
        TraceRequest { id: TraceId(1), settings: AcquisitionSettings::S11(s11()), device: None },
        TraceRequest { id: TraceId(2), settings: AcquisitionSettings::Spec(spec()), device: None },
    ])
    .unwrap()
}

fn token(id: u64) -> Token {
    Token { id }
}

fn request(settings: AcquisitionSettings) -> SweepRequest {
    SweepRequest::new(0, token(1), plan(settings))
}

fn clock(now: u128) -> Clock {
    Clock { now, latest: u128::MAX }
}

/// Checks that find no fault with this many groups or parameter sets.
fn accepted(count: usize) -> Checks {
    Checks { run: None, devices: (0..count).map(|_| None).collect() }
}

fn idle_device() -> DeviceStatus {
    DeviceStatus {
        calibration: CalibrationReport { kind: None, phase: CalibrationPhase::NotStarted },
        source: SourceReport { state: SourceOutputState::NotStarted, warning: None },
        requires_reconnect: false,
    }
}

fn command(session_id: u64, request_id: u64, command: WorkerCommand) -> CommandEnvelope {
    let verdicts = match &command {
        WorkerCommand::RunWorkspace(plan) => plan.groups.len(),
        WorkerCommand::StartSource(_) | WorkerCommand::StartCalibration(_) => 1,
        _ => 0,
    };
    let envelope = CommandEnvelope {
        session_id,
        request_id,
        cancel: token(request_id),
        command,
        checks: accepted(verdicts),
    };
    assert!(envelope.has_verdicts());
    envelope
}

fn events(log: &[Effect]) -> Vec<&EventEnvelope> {
    log.iter()
        .filter_map(|effect| match effect {
            Effect::Emit(event) => Some(event),
            _ => None,
        })
        .collect()
}

fn cancels(log: &[Effect], token: Token) -> bool {
    log.iter().any(|effect| matches!(effect, Effect::Cancel(raised) if *raised == token))
}

fn value_of(value: f64) -> Real {
    Real { bits: value.to_bits() }
}

#[test]
fn matching_save_ack_starts_the_interval_and_preserves_request_identity() {
    let key = RecordKey { session_id: 2, request_id: 7, pass_id: 1 };
    let mut recording = RecordingState { pending: Some(key) };
    let mut current = request(AcquisitionSettings::S11(s11()));
    current.request_id = key.request_id;
    current.phase = RunPhase::Saving;
    current.plan.run.interval_ms = 250;
    let mut job = Some(current);
    let mut log = Vec::new();
    recording.accept_result(
        RecordResult { key, result: Ok(Some("pass-1.csv".to_string())) },
        WorkerIdentity { session_id: 2, request_id: 99 },
        &mut job,
        false,
        clock(NOW),
        &mut log,
    );
    assert!(recording.pending.is_none());
    let current = job.as_mut().unwrap();
    assert_eq!(current.pass_id, 2);
    let until = NOW + 250 * MILLISECOND;
    assert_eq!(current.phase, RunPhase::Waiting { until });
    assert!(advance_wait(current, false, until - 1).is_none());
    assert!(advance_wait(current, true, until).is_none());
    assert!(matches!(advance_wait(current, false, until), Some(RunProgress::Acquiring)));
    let events = events(&log);
    assert_eq!(events.len(), 2);
    assert!(events.iter().all(|event| (event.session_id, event.request_id) == (2, 7)));
    assert!(matches!(
        &events[0].event,
        WorkerEvent::RunProgress(RunProgress::Saved { path, pass_id: 1 }) if path == "pass-1.csv"
    ));
    assert!(matches!(
        events[1].event,
        WorkerEvent::RunProgress(RunProgress::Waiting { until: deadline }) if deadline == until
    ));
}

#[test]
fn stale_save_ack_only_releases_the_global_slot() {
    for (session_id, request_id, pass_id) in [(3, 7, 1), (2, 8, 1), (2, 7, 2)] {
        let old = RecordKey { session_id: 2, request_id: 7, pass_id: 1 };
        let mut recording = RecordingState { pending: Some(old) };
        let mut current = request(AcquisitionSettings::S11(s11()));
        current.request_id = request_id;
        current.pass_id = pass_id;
        current.phase = RunPhase::Saving;
        let mut job = Some(current);
        assert!(advance_wait(job.as_mut().unwrap(), true, NOW).is_none());
        let mut log = Vec::new();
        recording.accept_result(
            RecordResult { key: old, result: Err("old disk failure".to_string()) },
            WorkerIdentity { session_id, request_id },
            &mut job,
            false,
            clock(NOW),
            &mut log,
        );
        assert!(log.is_empty(), "an old acknowledgement must not affect the new request");
        assert!(recording.pending.is_none());
        let current = job.as_mut().unwrap();
        assert_eq!(
            (current.request_id, current.pass_id, current.next_group),
            (request_id, pass_id, 0)
        );
        assert!(matches!(advance_wait(current, false, NOW), Some(RunProgress::Acquiring)));
    }
}

#[test]
fn stopped_and_failed_recordings_never_restart_acquisition() {
    let key = RecordKey { session_id: 2, request_id: 7, pass_id: 1 };
    for stopped in [false, true] {
        let mut recording = RecordingState { pending: Some(key) };
        let mut current = request(AcquisitionSettings::S11(s11()));
        current.request_id = 7;
        current.phase = RunPhase::Saving;
        let cancel = current.cancel;
        let mut job = Some(current);
        let mut log = Vec::new();
        if stopped {
            discard_job(&mut job, &mut log);
        }
        recording.accept_result(
            RecordResult { key, result: Err("disk full".to_string()) },
            WorkerIdentity { session_id: 2, request_id: 7 },
            &mut job,
            false,
            clock(NOW),
            &mut log,
        );
        assert!(recording.pending.is_none());
        assert!(job.is_none());
        assert!(cancels(&log, cancel));
        let events = events(&log);
        if stopped {
            assert!(events.is_empty());
        } else {
            let WorkerEvent::Error(message) = &events[0].event else {
                panic!("unexpected event: {:?}", events[0].event)
            };
            assert_eq!(message.text(""), "Recording failed: disk full");
        }
    }
}

#[test]
fn zero_interval_waits_for_a_save_ack_and_pass_overflow_stops() {
    let mut current = request(AcquisitionSettings::S11(s11()));
    current.phase = RunPhase::Saving;
    assert!(advance_wait(&mut current, true, NOW).is_none());
    assert_eq!(current.phase, RunPhase::Saving);
    assert!(matches!(current.finish_pass(clock(NOW)), Ok(RunProgress::Acquiring)));
    assert_eq!(current.pass_id, 2);
    current.pass_id = u64::MAX;
    assert!(matches!(current.finish_pass(clock(NOW)), Err(PassError::PassIdExhausted)));
}

#[test]
fn recording_progress_drops_on_stop_but_terminal_errors_remain_deliverable() {
    let cancel = token(4);
    for progress in [
        RunProgress::Acquiring,
        RunProgress::Saving,
        RunProgress::Waiting { until: NOW },
        RunProgress::Saved { path: "pass.csv".to_string(), pass_id: 1 },
    ] {
        let event = WorkerEvent::RunProgress(progress);
        assert_eq!(obsolete_token(&event, cancel, None), Some(cancel));
        assert_eq!(after_send(SendOutcome::Full), SendStep::Retry);
        assert!(may_send(false, false));
        assert!(!may_send(false, true));
    }
    let terminal =
        WorkerEvent::Error(Message::Recording(PassError::Recorder("disk full".to_string())));
    assert_eq!(obsolete_token(&terminal, cancel, None), None);
    assert_eq!(after_send(SendOutcome::Queued), SendStep::Done);
}

fn list_settings() -> [PointSettings; 3] {
    [
        PointSettings::S11 { cal: Cal::CalOff, format: Format::Loss, rbw: None },
        PointSettings::S21 { cal: Cal::CalOff, format: Format::Loss, lo: Lo::HighLo, rbw: None },
        PointSettings::Spec { cal: Cal::CalOff, lo: Lo::HighLo, rbw: R10K, ref_level_dbm: -10 },
    ]
}

fn row(frequency: f64, value: f64) -> SweepPoint {
    SweepPoint { freq_hz: value_of(frequency), values: vec![value_of(value)] }
}

/// Replies of a scripted instrument, the cancellation that its traffic
/// brings, and the point requests that reached it.
struct ListPeer {
    replies: Vec<Result<SweepPoint, DeviceError>>,
    asked: Vec<u64>,
}

fn measure(
    peer: &mut ListPeer,
    settings: &PointSettings,
    frequencies: &[u64],
    cancel: &mut bool,
    mut preview: impl FnMut(&ListRun, &mut bool),
) -> Result<ListRun, DeviceError> {
    let mut run = ListRun::new(settings, frequencies.to_vec());
    preview(&run, cancel);
    loop {
        match run.step(*cancel) {
            ListStep::Cancelled => return Err(DeviceError::Cancelled),
            ListStep::Done => return Ok(run),
            ListStep::Measure { frequency_hz } => {
                peer.asked.push(frequency_hz);
                let point = peer.replies.remove(0)?;
                run.accept(vec![point]);
                preview(&run, cancel);
            }
        }
    }
}

#[test]
fn list_acquisition_keeps_actual_hz_and_repeated_targets_after_each_fence() {
    for settings in list_settings() {
        let requested = [1_000_000, 1_000_000, 4_000_000];
        let actual = [1_000_000.25, 999_999.0, 4_000_000.2];
        let mut peer = ListPeer {
            replies: vec![
                Ok(row(actual[0], 1.0)),
                Ok(row(actual[1], 2.0)),
                Ok(row(actual[2], 3.0)),
            ],
            asked: Vec::new(),
        };
        let mut prefixes: Vec<Vec<Real>> = Vec::new();
        let run = measure(&mut peer, &settings, &requested, &mut false, |prefix, _| {
            assert_eq!(prefix.data.mode, settings.mode());
            assert_eq!(prefix.data.format, settings.format());
            assert_eq!(prefix.expected_points(), 3);
            prefixes.push(prefix.data.points.iter().map(|point| point.freq_hz).collect());
        })
        .unwrap();
        let actual = actual.map(value_of);
        assert_eq!(
            prefixes,
            [vec![], actual[..1].to_vec(), actual[..2].to_vec(), actual.to_vec()]
        );
        let measured: Vec<Real> = run.data.points.iter().map(|point| point.freq_hz).collect();
        assert_eq!(measured, actual);
        let values: Vec<Real> = run.data.points.iter().map(|point| point.values[0]).collect();
        assert_eq!(values, [value_of(1.0), value_of(2.0), value_of(3.0)]);
        assert_eq!(peer.asked, requested);
    }
}

#[test]
fn list_partial_failure_keeps_only_fenced_previews_and_never_starts_the_next_point() {
    for settings in list_settings() {
        let mut peer = ListPeer {
            replies: vec![
                Ok(row(999_999.0, 1.0)),
                Err(DeviceError::Protocol("unexpected columns".to_string())),
            ],
            asked: Vec::new(),
        };
        let mut prefixes = Vec::new();
        let result = measure(
            &mut peer,
            &settings,
            &[1_000_000, 2_000_000, 3_000_000],
            &mut false,
            |prefix, _| prefixes.push(prefix.data.points.len()),
        );
        assert!(matches!(result, Err(DeviceError::Protocol(_))), "{result:?}");
        assert_eq!(prefixes, [0, 1]);
        assert_eq!(peer.asked, [1_000_000, 2_000_000]);
    }
}

#[test]
fn list_cancellation_after_a_fenced_preview_starts_no_further_point() {
    let settings = list_settings()[0];
    for cancel_during_second_point in [false, true] {
        let second = if cancel_during_second_point {
            Err(DeviceError::Cancelled)
        } else {
            Ok(row(2_000_000.0, 2.0))
        };
        let mut peer =
            ListPeer { replies: vec![Ok(row(999_999.0, 1.0)), second], asked: Vec::new() };
        let mut prefixes = Vec::new();
        let result = measure(
            &mut peer,
            &settings,
            &[1_000_000, 2_000_000, 3_000_000],
            &mut false,
            |prefix, cancel| {
                prefixes.push(prefix.data.points.len());
                if prefix.data.points.len() == 1 && !cancel_during_second_point {
                    *cancel = true;
                }
            },
        );
        assert!(matches!(result, Err(DeviceError::Cancelled)));
        assert_eq!(prefixes, [0, 1]);
        let expected_runs = if cancel_during_second_point { 2 } else { 1 };
        assert_eq!(peer.asked.len(), expected_runs);
        assert!(!peer.asked.contains(&3_000_000));
    }
}

#[test]
fn invalid_workspace_plans_send_nothing_on_an_existing_connection() {
    let group = |settings, id| AcquisitionGroup { settings, members: vec![TraceId(id)] };
    let valid = || group(AcquisitionSettings::S11(s11()), 1);
    let empty = plan(AcquisitionSettings::S11(s11()));
    let run = || plan(AcquisitionSettings::S11(s11())).run;
    let mut invalid_params = spec();
    invalid_params.points = 0;
    let driver = DeviceError::InvalidParameter(kcsdi_gui::model::Reason::Other("points".into()));
    let invalid_plans = [
        (SweepPlan { groups: Vec::new(), run: empty.run }, accepted(0)),
        (
            SweepPlan {
                groups: vec![valid(), group(AcquisitionSettings::Spec(invalid_params), 2)],
                run: run(),
            },
            Checks { run: None, devices: vec![None, Some(driver)] },
        ),
        (SweepPlan { groups: vec![valid(), valid()], run: run() }, accepted(2)),
    ];
    for (invalid, checks) in invalid_plans {
        assert!(invalid.validate(&checks).is_err());
        let mut device = Some(idle_device());
        let mut job = Some(request(AcquisitionSettings::S11(s11())));
        let mut log = Vec::new();
        start_sweep(
            invalid,
            &checks,
            2,
            token(2),
            false,
            &mut device,
            &mut job,
            false,
            WorkerIdentity { session_id: 1, request_id: 2 },
            &mut log,
        );
        assert!(job.is_none());
        assert!(!device.unwrap().requires_reconnect);
        let events = events(&log);
        assert_eq!(events.len(), 1);
        assert!(matches!(events[0].event, WorkerEvent::Error(_)));
    }
}

#[test]
fn frame_resets_bypass_the_preview_throttle() {
    assert!(!preview_due(Some(NOW), false, NOW));
    assert!(preview_due(Some(NOW), true, NOW));
    assert!(preview_due(None, false, NOW));
    assert!(!preview_due(Some(NOW), false, NOW + PREVIEW_INTERVAL - 1));
    assert!(preview_due(Some(NOW), false, NOW + PREVIEW_INTERVAL));
}

#[test]
fn reliable_results_wait_for_capacity_without_being_dropped() {
    let obsolete = obsolete_token(&WorkerEvent::SweepStopped, token(1), None);
    assert_eq!(obsolete, None);
    let mut attempts = vec![SendOutcome::Full, SendOutcome::Queued].into_iter();
    let mut step = SendStep::Retry;
    while step == SendStep::Retry {
        assert!(may_send(false, false));
        step = after_send(attempts.next().unwrap());
    }
    assert_eq!(step, SendStep::Done);
}

#[test]
fn cancellation_and_shutdown_can_escape_a_full_result_queue() {
    for cancel_request in [false, true] {
        assert_eq!(after_send(SendOutcome::Full), SendStep::Retry);
        assert!(!may_send(!cancel_request, cancel_request));
    }
}

#[test]
fn a_missing_ui_stops_reliable_event_delivery() {
    assert_eq!(after_send(SendOutcome::Disconnected), SendStep::ShutDown);
}

#[test]
fn cancelled_runs_are_skipped_and_stop_acknowledges_its_own_request() {
    let mut state = WorkerState {
        identity: WorkerIdentity { session_id: 1, request_id: 1 },
        device: None,
        job: None,
    };
    let mut log = Vec::new();
    let run = WorkerCommand::RunWorkspace(plan(AcquisitionSettings::S11(s11())));
    assert!(handle(command(1, 2, run), true, &mut state, &mut log).is_none());
    assert!(state.job.is_none());
    assert!(log.is_empty());
    let stop = command(1, 3, WorkerCommand::StopSweep);
    assert!(handle(stop, false, &mut state, &mut log).is_none());
    let events = events(&log);
    assert_eq!(events.len(), 1);
    assert_eq!(events[0].request_id, 3);
    assert_eq!(events[0].cycle_id, None);
    assert!(matches!(events[0].event, WorkerEvent::SweepStopped));
}

#[test]
fn stale_commands_cannot_replace_the_session_or_its_request() {
    let mut state = WorkerState {
        identity: WorkerIdentity { session_id: 4, request_id: 9 },
        device: None,
        job: None,
    };
    let mut log = Vec::new();
    for (session_id, request_id, stale) in [
        (3, 10, WorkerCommand::Disconnect),
        (4, 8, WorkerCommand::RunWorkspace(plan(AcquisitionSettings::S11(s11())))),
        (3, 10, WorkerCommand::RunWorkspace(plan(AcquisitionSettings::Spec(spec())))),
        (3, 10, WorkerCommand::RefreshStatus),
        (
            3,
            10,
            WorkerCommand::Connect {
                target: ConnectionTarget::Tcp { host: "127.0.0.1".to_string(), port: 0 },
            },
        ),
    ] {
        let call = handle(command(session_id, request_id, stale), false, &mut state, &mut log);
        assert!(call.is_none());
        assert_eq!((state.identity.session_id, state.identity.request_id), (4, 9));
        assert!(state.device.is_none());
        assert!(state.job.is_none());
        assert!(log.is_empty());
    }
    let call = handle(command(5, 10, WorkerCommand::Disconnect), false, &mut state, &mut log);
    assert!(call.is_none());
    assert_eq!((state.identity.session_id, state.identity.request_id), (5, 10));
    assert_eq!(log.len(), 1);
    let events = events(&log);
    assert_eq!((events[0].session_id, events[0].request_id), (5, 10));
    assert!(matches!(events[0].event, WorkerEvent::Disconnected));
}

#[test]
fn run_without_a_connection_cannot_create_a_dormant_job() {
    for settings in [
        AcquisitionSettings::S11(s11()),
        AcquisitionSettings::Spec(spec()),
        AcquisitionSettings::S21(s21()),
    ] {
        let mut state = WorkerState {
            identity: WorkerIdentity { session_id: 1, request_id: 1 },
            device: None,
            job: None,
        };
        let mut log = Vec::new();
        let run = WorkerCommand::RunWorkspace(plan(settings));
        assert!(handle(command(1, 2, run), false, &mut state, &mut log).is_none());
        assert!(state.job.is_none());
        assert_eq!(state.identity.request_id, 2);
        let events = events(&log);
        assert_eq!((events[0].session_id, events[0].request_id), (1, 2));
        assert!(matches!(events[0].event, WorkerEvent::ConnectionLost(_)));
    }
}

fn measuring_state() -> WorkerState {
    let mut job = SweepRequest::new(7, token(7), two_groups());
    job.next_group = 1;
    WorkerState {
        identity: WorkerIdentity { session_id: 2, request_id: 7 },
        device: Some(idle_device()),
        job: Some(job),
    }
}

fn healthy() -> HealthSnapshot {
    HealthSnapshot {
        temperature: value_of(42.0),
        external: value_of(12.0),
        battery: value_of(8.0),
        observed_at: NOW,
    }
}

#[test]
fn status_refresh_preserves_the_repeating_jobs_request_identity() {
    let mut state = measuring_state();
    let mut log = Vec::new();
    let call = handle(command(2, 3, WorkerCommand::RefreshStatus), false, &mut state, &mut log);
    assert!(matches!(call, Some(DeviceCall::Status)));
    status_result(
        Ok(healthy()),
        &mut state.device,
        &mut state.job,
        WorkerIdentity { session_id: 2, request_id: 3 },
        &mut log,
    );
    assert_eq!((state.identity.session_id, state.identity.request_id), (2, 7));
    let job = state.job.unwrap();
    assert_eq!(job.request_id, 7);
    assert_eq!(job.next_group, 1);
    assert_eq!(job.plan.groups.len(), 2);
    assert!(state.device.is_some());
    let events = events(&log);
    assert_eq!((events[0].session_id, events[0].request_id), (2, 3));
    assert!(matches!(
        events[0].event,
        WorkerEvent::Status(HealthSnapshot { temperature, .. }) if temperature == value_of(42.0)
    ));
}

#[test]
fn deferred_refreshes_coalesce_behind_controls_and_expire_with_the_session() {
    let mut state = WorkerState {
        identity: WorkerIdentity { session_id: 2, request_id: 7 },
        device: None,
        job: Some(request(AcquisitionSettings::S11(s11()))),
    };
    let mut pending = None;
    let mut log = Vec::new();
    for request_id in [3, 4] {
        handle_or_defer(
            command(2, request_id, WorkerCommand::RefreshStatus),
            false,
            &mut pending,
            &mut state,
            false,
            &mut log,
        );
    }
    assert_eq!(pending.as_ref().unwrap().request_id, 4);
    assert!(state.job.is_some());
    assert!(log.is_empty());
    handle_or_defer(
        command(2, 8, WorkerCommand::StopSweep),
        false,
        &mut pending,
        &mut state,
        false,
        &mut log,
    );
    assert!(state.job.is_none());
    assert!(matches!(events(&log)[0].event, WorkerEvent::SweepStopped));
    assert_eq!(pending.as_ref().unwrap().request_id, 4);
    assert_eq!(state.identity.request_id, 8);
    handle_or_defer(
        command(1, 9, WorkerCommand::RefreshStatus),
        false,
        &mut pending,
        &mut state,
        false,
        &mut log,
    );
    assert_eq!(pending.as_ref().unwrap().request_id, 4);
    handle_or_defer(
        command(3, 9, WorkerCommand::Disconnect),
        false,
        &mut pending,
        &mut state,
        false,
        &mut log,
    );
    assert!(pending.is_none());
    assert!(matches!(events(&log)[1].event, WorkerEvent::Disconnected));
}

#[test]
fn recoverable_status_failures_preserve_the_job_and_allow_a_fresh_pair() {
    let mut state = measuring_state();
    let mut log = Vec::new();
    for attempt in 0..2 {
        let call = handle(command(2, 3, WorkerCommand::RefreshStatus), false, &mut state, &mut log);
        assert!(matches!(call, Some(DeviceCall::Status)));
        let result = if attempt == 0 {
            Err(DeviceError::Device("err_par5".to_string()))
        } else {
            Ok(healthy())
        };
        status_result(
            result,
            &mut state.device,
            &mut state.job,
            WorkerIdentity { session_id: 2, request_id: 3 },
            &mut log,
        );
        assert!(!state.device.unwrap().requires_reconnect);
        assert_eq!(state.job.as_ref().unwrap().request_id, 7);
        assert_eq!(state.job.as_ref().unwrap().next_group, 1);
        assert_eq!(state.identity.request_id, 7);
        let events = events(&log);
        assert_eq!(events.len(), attempt + 1);
        let event = events[attempt];
        assert_eq!((event.session_id, event.request_id), (2, 3));
        match &event.event {
            WorkerEvent::StatusFailed(Message::Failure { context, error }) => {
                assert_eq!(attempt, 0);
                assert_eq!(*context, Context::Status);
                assert_eq!(*error, DeviceError::Device("err_par5".to_string()));
            }
            WorkerEvent::Status(snapshot) => {
                assert_eq!(attempt, 1);
                assert_eq!(*snapshot, healthy());
            }
            other => panic!("expected complete status pair, got {other:?}"),
        }
    }
}

#[test]
fn cancelled_status_gap_and_obsolete_status_delivery_do_not_block() {
    assert_eq!(status_command_gap(true, 0), GapStep::Cancelled);
    assert_eq!(status_command_gap(false, STATUS_COMMAND_GAP + 1), GapStep::Done);
    assert_eq!(status_command_gap(false, 0), GapStep::Sleep { nanos: 10_000_000 });
    assert!(matches!(
        status_command_gap(false, STATUS_COMMAND_GAP - 1),
        GapStep::Sleep { nanos: 1 }
    ));
    let event = WorkerEvent::StatusFailed(Message::Other("obsolete".to_string()));
    let cancel = token(5);
    assert_eq!(obsolete_token(&event, cancel, None), Some(cancel));
    assert_eq!(obsolete_token(&event, cancel, Some(token(6))), Some(token(6)));
    assert!(!may_send(false, true));
}

#[test]
fn fatal_failures_clear_the_job_and_report_connection_loss() {
    for error in [
        DeviceError::Timeout,
        DeviceError::NotConnected,
        DeviceError::Protocol("oversized packet".to_string()),
        DeviceError::Io("connection reset".to_string()),
    ] {
        let mut device = None;
        let mut job = Some(request(AcquisitionSettings::S11(s11())));
        let mut log = Vec::new();
        fail(
            error,
            Context::Sweep,
            &mut device,
            &mut job,
            WorkerIdentity::default(),
            &mut log,
        );
        assert!(job.is_none());
        assert!(matches!(events(&log)[0].event, WorkerEvent::ConnectionLost(_)));
    }
}

#[test]
fn device_error_packets_do_not_invalidate_the_connection() {
    for error in [
        DeviceError::Device("err_par5".to_string()),
        DeviceError::InvalidParameter(kcsdi_gui::model::Reason::Other(
            "invalid frequency".to_string(),
        )),
        DeviceError::DeviceBusy("front-panel dialog".to_string()),
    ] {
        assert!(!connection_failed(&error));
    }
}

#[test]
fn a_failed_status_query_releases_an_existing_connection() {
    let mut state = WorkerState {
        identity: WorkerIdentity::default(),
        device: Some(idle_device()),
        job: Some(request(AcquisitionSettings::S11(s11()))),
    };
    let mut log = Vec::new();
    let call = handle(command(0, 0, WorkerCommand::RefreshStatus), false, &mut state, &mut log);
    assert!(matches!(call, Some(DeviceCall::Status)));
    status_result(
        Err(DeviceError::NotConnected),
        &mut state.device,
        &mut state.job,
        WorkerIdentity::default(),
        &mut log,
    );
    assert!(state.device.is_none());
    assert!(state.job.is_none());
    assert!(log.iter().any(|effect| matches!(effect, Effect::Close)));
    assert!(matches!(events(&log)[0].event, WorkerEvent::ConnectionLost(_)));
}

#[test]
fn a_device_error_with_failed_cleanup_cannot_keep_a_reusable_session() {
    let mut device = Some(DeviceStatus { requires_reconnect: true, ..idle_device() });
    let mut job = Some(request(AcquisitionSettings::S11(s11())));
    let mut log = Vec::new();
    fail(
        DeviceError::Device("err_par5".to_string()),
        Context::Sweep,
        &mut device,
        &mut job,
        WorkerIdentity::default(),
        &mut log,
    );
    assert!(device.is_none());
    assert!(job.is_none());
    assert!(matches!(events(&log)[0].event, WorkerEvent::ConnectionLost(_)));
}

#[test]
fn cancelled_operations_end_the_job_in_silence() {
    let mut device = Some(idle_device());
    let mut job = Some(request(AcquisitionSettings::S11(s11())));
    let mut log = Vec::new();
    fail(
        DeviceError::Cancelled,
        Context::Sweep,
        &mut device,
        &mut job,
        WorkerIdentity::default(),
        &mut log,
    );
    assert!(device.is_some());
    assert!(job.is_none());
    assert_eq!(log.len(), 1);
    assert!(cancels(&log, token(1)));
}

#[test]
fn connecting_reports_the_instrument_or_the_failure() {
    let source = WorkerIdentity { session_id: 1, request_id: 1 };
    let info = || DeviceInfo {
        serial: "000000000001".to_string(),
        username: "replay".to_string(),
        software: "test".to_string(),
        hardware: "test".to_string(),
        copyright: "Test fixture".to_string(),
    };
    let mut device = None;
    let mut log = Vec::new();
    connect_result(Ok((info(), idle_device())), &mut device, source, &mut log);
    assert_eq!(device, Some(idle_device()));
    assert!(matches!(&events(&log)[0].event, WorkerEvent::Connected(found) if *found == info()));
    let mut log = Vec::new();
    connect_result(Err(DeviceError::Timeout), &mut device, source, &mut log);
    assert_eq!(device, None);
    let WorkerEvent::Error(message) = &events(&log)[0].event else {
        panic!("a failed attempt is no lost connection")
    };
    assert_eq!(message.text("timed out"), "Connect failed: timed out");
    let mut log = Vec::new();
    connect_result(Err(DeviceError::Cancelled), &mut device, source, &mut log);
    assert!(log.is_empty());
}

#[test]
fn stopping_is_acknowledged_once_the_instrument_agrees() {
    let source = WorkerIdentity { session_id: 2, request_id: 8 };
    let mut state = measuring_state();
    let mut log = Vec::new();
    let call = handle(command(2, 8, WorkerCommand::StopSweep), false, &mut state, &mut log);
    assert!(matches!(call, Some(DeviceCall::StopSweep)));
    assert!(events(&log).is_empty());
    assert!(cancels(&log, token(7)));
    stop_result(Ok(()), &mut state.device, &mut state.job, source, &mut log);
    assert!(matches!(events(&log)[0].event, WorkerEvent::SweepStopped));
    stop_result(Err(DeviceError::Timeout), &mut state.device, &mut state.job, source, &mut log);
    assert!(state.device.is_none());
    assert!(matches!(events(&log)[1].event, WorkerEvent::ConnectionLost(_)));
}

#[test]
fn a_second_pass_waits_for_the_recorder() {
    let mut recording = RecordingState::default();
    let mut job = request(AcquisitionSettings::S11(s11()));
    job.plan.run.recording.enabled = true;
    let snapshot = Arc::new(CompletedSweep {
        data: ListRun::new(&list_settings()[0], vec![1, 2, 3]).data,
        segments: None,
        settings: AcquisitionSettings::S11(s11()),
        session_id: 4,
        completed_at: 0,
    });
    job.pass.push((TraceId(1), snapshot));
    let PassStep::Save { key, snapshots } = recording.finish_pass(4, &mut job, clock(NOW)) else {
        panic!("a recorded pass has to be saved")
    };
    assert_eq!(key, RecordKey { session_id: 4, request_id: 0, pass_id: 1 });
    assert_eq!(snapshots.len(), 1);
    assert!(job.pass.is_empty());
    let saving = recording.save_submitted(key, Ok(()), &mut job);
    assert!(matches!(saving, Ok(RunProgress::Saving)));
    assert_eq!(job.phase, RunPhase::Saving);
    assert!(matches!(
        recording.finish_pass(4, &mut job, clock(NOW)),
        PassStep::Refused(PassError::StillPending)
    ));
    recording.pending = None;
    let refused = recording.save_submitted(key, Err("stopped".to_string()), &mut job);
    assert!(matches!(refused, Err(PassError::Recorder(words)) if words == "stopped"));
    assert!(recording.pending.is_none());
}

#[test]
fn an_interval_beyond_the_clock_is_refused() {
    let mut job = request(AcquisitionSettings::S11(s11()));
    job.plan.run.interval_ms = 10;
    let latest = NOW + 10 * MILLISECOND - 1;
    assert!(matches!(
        job.finish_pass(Clock { now: NOW, latest }),
        Err(PassError::ClockRange)
    ));
    let mut job = request(AcquisitionSettings::S11(s11()));
    job.plan.run.interval_ms = 10;
    assert!(matches!(
        job.finish_pass(Clock { now: NOW, latest: latest + 1 }),
        Ok(RunProgress::Waiting { until }) if until == latest + 1
    ));
}
