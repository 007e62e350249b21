use kcsdi_gui::acquisition::{
    AcquisitionSettings, Checks, CompletedSweep, SweepPlan, TraceId, TraceRequest,
};
use kcsdi_gui::calibration_control::{reject_while_active, rejection_guard, track_request};
use kcsdi_gui::device_worker::{
    calibration_result, connect_result, may_send, obsolete_token, source_result,
    source_rejection_guard, track_source_request, Clock, DeviceCall, Effect, RecordKey,
    RecordResult, RequestOwner, RunPhase, WorkerIdentity,
};
use kcsdi_gui::messages::{
    CommandEnvelope, Context, Message, PassError, RunProgress, Token, WorkerCommand, WorkerEvent,
};
use kcsdi_gui::model::{
    Cal, CalibrationKind, CalibrationParams, CalibrationPhase, CalibrationPrompt,
    CalibrationReport, ConnectionTarget, DeviceError, DeviceInfo, DeviceStatus, Format, Lo,
    Modulation, Rbw, Real, Reason, S11Params, SourceAmplitude, SourceKind, SourceOutputState,
    SourceParams, SourcePort, SourceReport, SourceWarning, SpecParams, StreamMode, SweepData,
    SweepPoint, UserCalibrationParams,
};
use kcsdi_gui::worker_loop::{Cycle, DevicePoll, HandledCommand, SaveRequest, Worker};
use kcsdi_gui::worker_steps::{next_step, LoopEvent, LoopStep};
use std::sync::Arc;

const NOW: u128 = 1_000_000_000;

fn s11() -> AcquisitionSettings {
    AcquisitionSettings::S11(S11Params {
        cal: Cal::CalOff,
        format: Format::Z,
        points: 3,
        start_hz: 1_000_000,
        stop_hz: 2_000_000,
        rbw: Some(Rbw { hz: 10_000 }),
    })
}

fn spectrum() -> AcquisitionSettings {
    AcquisitionSettings::Spec(SpecParams {
        cal: Cal::CalOff,
        lo: Lo::HighLo,
        points: 3,
        start_hz: 1_000_000,
        stop_hz: 2_000_000,
        rbw: Rbw { hz: 10_000 },
        ref_level_dbm: -10,
    })
}

fn wish(id: u64, settings: AcquisitionSettings) -> TraceRequest {
    TraceRequest { id: TraceId(id), settings, device: None }
}

fn plan() -> SweepPlan {
    let mut plan = SweepPlan::from_requests(vec![wish(1, s11())]).unwrap();
    plan.run.interval_ms = 60_000;
    plan
}

fn recorded_plan() -> SweepPlan {
    let mut plan = plan();
    plan.run.recording.enabled = true;
    plan
}

fn rows(mode: StreamMode, format: &str, values: &[f64]) -> SweepData {
    let point = |hz: f64| SweepPoint {
        freq_hz: Real { bits: hz.to_bits() },
        values: values.iter().map(|value| Real { bits: value.to_bits() }).collect(),
    };
    SweepData {
        mode,
        format: format.to_string(),
        points: vec![point(1e6), point(1.5e6), point(2e6)],
    }
}

fn idle() -> DeviceStatus {
    DeviceStatus {
        calibration: CalibrationReport { kind: None, phase: CalibrationPhase::NotStarted },
        source: SourceReport { state: SourceOutputState::NotStarted, warning: None },
        requires_reconnect: false,
    }
}

fn source(kind: SourceKind) -> SourceParams {
    SourceParams {
        kind,
        port: SourcePort::Port1,
        frequency_hz: 1_000_000_000,
        amplitude: SourceAmplitude::Dbm(-20),
        modulation: Modulation::Off,
    }
}

fn params(kind: CalibrationKind) -> CalibrationParams {
    let user = UserCalibrationParams {
        center_hz: 1_500_000,
        span_hz: 1_000_001,
        points: 201,
        rbw: Rbw { hz: 3_000 },
    };
    match kind {
        CalibrationKind::S11System => CalibrationParams::S11System,
        CalibrationKind::S21System => CalibrationParams::S21System,
        CalibrationKind::S11User => CalibrationParams::S11User(user),
        CalibrationKind::S21User => CalibrationParams::S21User(user),
    }
}

fn first_prompt(kind: CalibrationKind) -> CalibrationPrompt {
    match kind {
        CalibrationKind::S11System | CalibrationKind::S11User => CalibrationPrompt::Short,
        CalibrationKind::S21System | CalibrationKind::S21User => CalibrationPrompt::Through,
    }
}

/// A worker whose instrument is played by the test.
struct Replay {
    worker: Worker,
    log: Vec<Effect>,
    read: usize,
    raised: Vec<Token>,
}

impl Replay {
    fn new() -> Self {
        let mut replay =
            Replay { worker: Worker::default(), log: Vec::new(), read: 0, raised: Vec::new() };
        let target = ConnectionTarget::Tcp { host: "127.0.0.1".to_string(), port: 901 };
        let handled = replay.send(1, WorkerCommand::Connect { target });
        let Some(DeviceCall::Connect { target }) = handled.call else {
            panic!("unexpected call: {:?}", handled.call)
        };
        assert_eq!(
            target,
            ConnectionTarget::Tcp { host: "127.0.0.1".to_string(), port: 901 }
        );
        let info = DeviceInfo {
            serial: "000000000001".to_string(),
            username: "replay".to_string(),
            software: "test".to_string(),
            hardware: "test".to_string(),
            copyright: "Test fixture".to_string(),
        };
        connect_result(
            Ok((info, idle())),
            &mut replay.worker.state.device,
            handled.source,
            &mut replay.log,
        );
        assert!(matches!(replay.event(1), WorkerEvent::Connected(_)));
        replay
    }

    fn command(session_id: u64, request_id: u64, command: WorkerCommand) -> CommandEnvelope {
        let verdicts = match &command {
            WorkerCommand::RunWorkspace(plan) => plan.groups.len(),
            WorkerCommand::StartSource(_) | WorkerCommand::StartCalibration(_) => 1,
            _ => 0,
        };
        CommandEnvelope {
            session_id,
            request_id,
            cancel: Token { id: request_id },
            command,
            checks: Checks { run: None, devices: (0..verdicts).map(|_| None).collect() },
        }
    }

    fn send(&mut self, request_id: u64, command: WorkerCommand) -> HandledCommand {
        let envelope = Self::command(1, request_id, command);
        self.worker.on_command(envelope, false, &mut self.log).unwrap()
    }

    /// The next event, which has to answer `request_id`.
    fn event(&mut self, request_id: u64) -> &WorkerEvent {
        loop {
            assert!(self.read < self.log.len(), "no event is left");
            self.read += 1;
            match &self.log[self.read - 1] {
                Effect::Emit(envelope) => {
                    assert_eq!(envelope.request_id, request_id);
                    break;
                }
                Effect::Cancel(token) => self.raised.push(*token),
                Effect::Close | Effect::Drop => {}
            }
        }
        let Effect::Emit(envelope) = &self.log[self.read - 1] else { unreachable!() };
        &envelope.event
    }

    fn quiet(&mut self) {
        while self.read < self.log.len() {
            match &self.log[self.read] {
                Effect::Cancel(token) => self.raised.push(*token),
                other => panic!("unexpected effect: {other:?}"),
            }
            self.read += 1;
        }
    }

    /// The instrument is let go of before anything is reported.
    fn released(&mut self) {
        assert!(matches!(self.log[self.read], Effect::Close));
        self.read += 1;
    }

    fn device(&self) -> DeviceStatus {
        self.worker.state.device.unwrap()
    }

    fn calibration_at(&self, kind: CalibrationKind, phase: CalibrationPhase) -> DeviceStatus {
        DeviceStatus { calibration: CalibrationReport { kind: Some(kind), phase }, ..self.device() }
    }

    fn source_at(&self, state: SourceOutputState, warning: Option<SourceWarning>) -> DeviceStatus {
        DeviceStatus { source: SourceReport { state, warning }, ..self.device() }
    }

    fn calibration_answer(
        &mut self,
        handled: &HandledCommand,
        result: Result<(), DeviceError>,
        status: DeviceStatus,
    ) {
        self.worker.state.device = Some(status);
        calibration_result(
            result.map(|()| status.calibration),
            &mut self.worker.state.device,
            &mut self.worker.state.job,
            handled.source,
            &mut self.log,
        );
    }

    fn source_answer(&mut self, handled: &HandledCommand, status: DeviceStatus) {
        self.worker.state.device = Some(status);
        source_result(
            Ok(status.source),
            &mut self.worker.state.device,
            &mut self.worker.state.job,
            handled.source,
            &mut self.log,
        );
    }

    fn expect_calibration(
        &mut self,
        request_id: u64,
        kind: CalibrationKind,
        phase: CalibrationPhase,
    ) {
        let WorkerEvent::CalibrationReport(report) = self.event(request_id) else {
            panic!("a calibration report is due")
        };
        assert_eq!(*report, CalibrationReport { kind: Some(kind), phase });
    }

    fn expect_source(
        &mut self,
        request_id: u64,
        state: SourceOutputState,
        warning: Option<SourceWarning>,
    ) {
        let WorkerEvent::SourceReport(report) = self.event(request_id) else {
            panic!("a source report is due")
        };
        assert_eq!(*report, SourceReport { state, warning });
    }

    fn poll_calibration(&mut self, result: Result<(), DeviceError>, status: DeviceStatus) {
        let DevicePoll::Calibration { owner, .. } = self.worker.poll() else {
            panic!("an active calibration has to be polled")
        };
        self.worker.calibration_polled(
            owner,
            result.map(|()| status.calibration),
            status,
            &mut self.log,
        );
    }

    fn poll_source(&mut self, result: Result<(), DeviceError>, status: DeviceStatus) {
        let DevicePoll::Source { owner } = self.worker.poll() else {
            panic!("an active source has to be polled")
        };
        self.worker.source_polled(owner, result.map(|()| status.source), status, &mut self.log);
    }

    /// Start a calibration and bring it to its first prompt.
    fn start(&mut self, request_id: u64, kind: CalibrationKind) {
        let handled = self.send(request_id, WorkerCommand::StartCalibration(params(kind)));
        assert!(matches!(
            &handled.call,
            Some(DeviceCall::StartCalibration(asked)) if *asked == params(kind)
        ));
        let status = self.calibration_at(kind, CalibrationPhase::AwaitingConfirmation);
        self.calibration_answer(&handled, Ok(()), status);
        self.expect_calibration(request_id, kind, CalibrationPhase::AwaitingConfirmation);
        let prompt = CalibrationPhase::Prompt(first_prompt(kind));
        let status = self.calibration_at(kind, prompt);
        self.poll_calibration(Ok(()), status);
        self.expect_calibration(request_id, kind, prompt);
    }

    fn cancel_prompt(&mut self, request_id: u64, kind: CalibrationKind) {
        let handled = self.send(request_id, WorkerCommand::CancelCalibration);
        assert!(matches!(handled.call, Some(DeviceCall::CancelCalibration)));
        let status = self.calibration_at(kind, CalibrationPhase::Cancelled);
        self.calibration_answer(&handled, Ok(()), status);
        self.expect_calibration(request_id, kind, CalibrationPhase::Cancelled);
    }

    fn first_source(&mut self, request_id: u64) {
        let handled = self.send(request_id, WorkerCommand::StartSource(source(SourceKind::Rf)));
        assert!(matches!(
            &handled.call,
            Some(DeviceCall::StartSource(asked)) if *asked == source(SourceKind::Rf)
        ));
        let status = self.source_at(SourceOutputState::Requested(SourceKind::Rf), None);
        self.source_answer(&handled, status);
        self.expect_source(request_id, SourceOutputState::Requested(SourceKind::Rf), None);
    }

    fn disconnect(&mut self, request_id: u64) {
        let envelope = Self::command(2, request_id, WorkerCommand::Disconnect);
        let handled = self.worker.on_command(envelope, false, &mut self.log).unwrap();
        assert!(handled.call.is_none());
        self.quiet_until_release();
        assert!(matches!(self.event(request_id), WorkerEvent::Disconnected));
        assert!(self.worker.state.device.is_none());
    }

    fn quiet_until_release(&mut self) {
        while let Effect::Cancel(token) = &self.log[self.read] {
            self.raised.push(*token);
            self.read += 1;
        }
        self.released();
    }

    fn run(&mut self, request_id: u64, plan: SweepPlan) {
        let handled = self.send(request_id, WorkerCommand::RunWorkspace(plan));
        assert!(handled.call.is_none());
        assert!(matches!(
            self.event(request_id),
            WorkerEvent::RunProgress(RunProgress::Acquiring)
        ));
        assert_eq!(self.worker.poll(), DevicePoll::Nothing);
    }

    fn cycle(&mut self) -> Cycle {
        assert!(self.worker.settle(false, NOW, &mut self.log));
        self.worker.begin_cycle(false, &mut self.log).unwrap()
    }

    fn deliver(&mut self, cycle: &Cycle, data: SweepData) -> Option<SaveRequest> {
        let envelope = self.worker.delivery(cycle, data, None, 0);
        assert_eq!(envelope.cycle_id, Some(cycle.cycle_id));
        let WorkerEvent::SweepTrace(delivery) = envelope.event else {
            panic!("a frame has to be delivered")
        };
        assert!(delivery.snapshot.settings.accepts(&delivery.snapshot.data));
        self.worker.delivered(
            cycle,
            &delivery.snapshot,
            false,
            Clock { now: NOW, latest: u128::MAX },
            &mut self.log,
        )
    }
}

#[test]
fn all_four_calibrations_require_each_standard_and_exact_complete_frame() {
    for kind in [
        CalibrationKind::S11System,
        CalibrationKind::S21System,
        CalibrationKind::S11User,
        CalibrationKind::S21User,
    ] {
        let mut replay = Replay::new();
        replay.start(2, kind);
        let prompts: &[CalibrationPrompt] = match first_prompt(kind) {
            CalibrationPrompt::Short => {
                &[CalibrationPrompt::Short, CalibrationPrompt::Open, CalibrationPrompt::Load]
            }
            _ => &[CalibrationPrompt::Through],
        };
        let mut request = 2;
        for (index, prompt) in prompts.iter().enumerate() {
            // At a prompt the replaced flag of a step interrupts nothing.
            assert!(matches!(
                replay.worker.poll(),
                DevicePoll::Calibration { only_shutdown: true, .. }
            ));
            let unchanged = replay.device();
            replay.poll_calibration(Ok(()), unchanged);
            replay.quiet();
            request += 1;
            let handled = replay.send(request, WorkerCommand::AdvanceCalibration(*prompt));
            assert!(matches!(
                handled.call,
                Some(DeviceCall::AdvanceCalibration(asked)) if asked == *prompt
            ));
            let status = replay.calibration_at(kind, CalibrationPhase::Measuring);
            replay.calibration_answer(&handled, Ok(()), status);
            replay.expect_calibration(request, kind, CalibrationPhase::Measuring);
            assert!(matches!(
                replay.worker.poll(),
                DevicePoll::Calibration { owner, only_shutdown: false }
                    if owner.identity.request_id == request
            ));
            if let Some(next) = prompts.get(index + 1) {
                let status = replay.calibration_at(kind, CalibrationPhase::Prompt(*next));
                replay.poll_calibration(Ok(()), status);
                replay.expect_calibration(request, kind, CalibrationPhase::Prompt(*next));
            }
        }
        let status = replay.calibration_at(kind, CalibrationPhase::Processing);
        replay.poll_calibration(Ok(()), status);
        replay.expect_calibration(request, kind, CalibrationPhase::Processing);
        replay.poll_calibration(Ok(()), status);
        replay.quiet();
        let status = replay.calibration_at(kind, CalibrationPhase::Completed);
        replay.poll_calibration(Ok(()), status);
        replay.expect_calibration(request, kind, CalibrationPhase::Completed);
        replay.quiet();
        assert_eq!(replay.worker.poll(), DevicePoll::Nothing);
    }
}

#[test]
fn stale_expected_prompt_sends_no_yes_and_does_not_retag_calibration() {
    let mut replay = Replay::new();
    replay.start(2, CalibrationKind::S11System);
    let handled = replay.send(3, WorkerCommand::AdvanceCalibration(CalibrationPrompt::Open));
    let unchanged = replay.device();
    replay.calibration_answer(
        &handled,
        Err(DeviceError::InvalidParameter(Reason::Other("prompt".to_string()))),
        unchanged,
    );
    replay.expect_calibration(
        3,
        CalibrationKind::S11System,
        CalibrationPhase::Prompt(CalibrationPrompt::Short),
    );
    assert!(matches!(replay.event(3), WorkerEvent::Error(_)));
    replay.quiet();
    assert!(matches!(
        replay.worker.poll(),
        DevicePoll::Calibration { owner, .. } if owner.identity.request_id == 2
    ));
    replay.cancel_prompt(4, CalibrationKind::S11System);
}

#[test]
fn cancelling_a_human_prompt_requires_exit_ack_and_a_fresh_device_fence() {
    for kind in [CalibrationKind::S11System, CalibrationKind::S21User] {
        let mut replay = Replay::new();
        replay.start(2, kind);
        replay.cancel_prompt(3, kind);
        replay.run(4, plan());
        let cycle = replay.cycle();
        let save = replay.deliver(&cycle, rows(StreamMode::S11, "z", &[50.0, 50.0, 0.0]));
        assert!(save.is_none());
        assert!(matches!(
            replay.event(4),
            WorkerEvent::RunProgress(RunProgress::Waiting { .. })
        ));
    }
}

#[test]
fn early_or_wrong_completion_retires_before_event_backpressure() {
    for words in ["s11cal_completed", "s21cal_short", "s11UserCal_load"] {
        let mut replay = Replay::new();
        replay.start(2, CalibrationKind::S11System);
        let status = DeviceStatus {
            requires_reconnect: true,
            ..replay.calibration_at(CalibrationKind::S11System, CalibrationPhase::Unknown)
        };
        replay.poll_calibration(Err(DeviceError::Protocol(words.to_string())), status);
        replay.released();
        replay.expect_calibration(2, CalibrationKind::S11System, CalibrationPhase::Unknown);
        assert!(matches!(replay.event(2), WorkerEvent::ConnectionLost(_)));
        assert!(replay.worker.state.device.is_none());
    }
}

#[test]
fn cancel_during_measurement_is_unknown_and_releases_the_session() {
    let kind = CalibrationKind::S21System;
    let mut replay = Replay::new();
    replay.start(2, kind);
    let handled = replay.send(3, WorkerCommand::AdvanceCalibration(CalibrationPrompt::Through));
    let status = replay.calibration_at(kind, CalibrationPhase::Measuring);
    replay.calibration_answer(&handled, Ok(()), status);
    replay.expect_calibration(3, kind, CalibrationPhase::Measuring);
    let handled = replay.send(4, WorkerCommand::CancelCalibration);
    assert!(matches!(handled.call, Some(DeviceCall::CancelCalibration)));
    let status = DeviceStatus {
        requires_reconnect: true,
        ..replay.calibration_at(kind, CalibrationPhase::Unknown)
    };
    replay.calibration_answer(&handled, Err(DeviceError::Cancelled), status);
    replay.released();
    replay.expect_calibration(4, kind, CalibrationPhase::Unknown);
    assert!(matches!(replay.event(4), WorkerEvent::ConnectionLost(_)));
}

#[test]
fn rejected_operations_cannot_block_cancel_behind_full_events() {
    for operation in 0..4 {
        let mut replay = Replay::new();
        replay.start(2, CalibrationKind::S11System);
        let command = match operation {
            0 => WorkerCommand::RefreshStatus,
            1 => WorkerCommand::RunWorkspace(plan()),
            2 => WorkerCommand::StartSource(source(SourceKind::Rf)),
            _ => WorkerCommand::AdvanceCalibration(CalibrationPrompt::Open),
        };
        let handled = replay.send(3, command);
        // The refusal is pointless once the calibration's own flag is up.
        assert_eq!(handled.guard, Some(Token { id: 2 }));
        let refusal = WorkerEvent::Error(Message::CalibrationActive);
        let obsolete = obsolete_token(&refusal, handled.cancel, handled.guard);
        assert_eq!(obsolete, Some(Token { id: 2 }));
        assert!(!may_send(false, true));
        if operation == 0 {
            let status = replay.worker.take_status(false, &mut replay.log).unwrap();
            assert!(status.call.is_none());
            assert_eq!(status.guard, Some(Token { id: 2 }));
        }
        replay.read = replay.log.len();
        replay.cancel_prompt(4, CalibrationKind::S11System);
        replay.quiet();
    }
}

#[test]
fn calibration_discards_an_incomplete_recording_pass() {
    let mut replay = Replay::new();
    replay.run(2, recorded_plan());
    let cycle = replay.cycle();
    replay.worker.acquisition_failed(&cycle, DeviceError::Cancelled, &mut replay.log);
    assert!(replay.worker.state.job.is_none());
    replay.start(3, CalibrationKind::S11System);
    assert!(replay.worker.recording.pending.is_none());
    replay.cancel_prompt(4, CalibrationKind::S11System);
}

/// A recorded pass that the recorder has not written yet.
fn with_blocked_writer() -> (Replay, RecordKey) {
    let mut replay = Replay::new();
    replay.run(2, recorded_plan());
    let cycle = replay.cycle();
    let save = replay
        .deliver(&cycle, rows(StreamMode::S11, "z", &[50.0, 50.0, 0.0]))
        .expect("a complete pass is recorded");
    assert_eq!(save.key, RecordKey { session_id: 1, request_id: 2, pass_id: 1 });
    assert_eq!(save.snapshots.len(), 1);
    assert_eq!(save.snapshots[0].0, TraceId(1));
    replay.worker.pass_submitted(save.key, Ok(()), &cycle, &mut replay.log);
    assert!(matches!(replay.event(2), WorkerEvent::RunProgress(RunProgress::Saving)));
    (replay, save.key)
}

fn writer_answers(replay: &mut Replay, key: RecordKey) {
    let identity = replay.worker.state.identity;
    replay.worker.recording.accept_result(
        RecordResult { key, result: Ok(None) },
        identity,
        &mut replay.worker.state.job,
        false,
        Clock { now: NOW, latest: u128::MAX },
        &mut replay.log,
    );
    replay.quiet();
    assert!(replay.worker.recording.pending.is_none());
}

#[test]
fn blocked_recording_write_does_not_delay_calibration_or_cancel() {
    let (mut replay, key) = with_blocked_writer();
    replay.start(3, CalibrationKind::S21System);
    assert!(replay.raised.contains(&Token { id: 2 }));
    replay.cancel_prompt(4, CalibrationKind::S21System);
    writer_answers(&mut replay, key);
}

#[test]
fn rf_af_late_warnings_status_exclusion_and_explicit_stop_before_scan() {
    let mut replay = Replay::new();
    replay.first_source(2);
    let requested = SourceOutputState::Requested(SourceKind::Rf);
    for warning in [SourceWarning::AboveMaximum, SourceWarning::BelowMinimum] {
        let status = replay.source_at(requested, Some(warning));
        replay.poll_source(Ok(()), status);
        replay.expect_source(2, requested, Some(warning));
        replay.poll_source(Ok(()), status);
        replay.quiet();
    }

    replay.send(1, WorkerCommand::RefreshStatus);
    let status = replay.worker.take_status(false, &mut replay.log).unwrap();
    assert!(status.call.is_none());
    assert!(matches!(replay.event(1), WorkerEvent::StatusFailed(Message::SourceBlocksStatus)));
    let handled = replay.send(3, WorkerCommand::RunWorkspace(plan()));
    assert!(handled.call.is_none());
    assert!(matches!(
        replay.event(3),
        WorkerEvent::Error(Message::Failure {
            context: Context::Run,
            error: DeviceError::SourceActive
        })
    ));
    replay.quiet();

    let handled = replay.send(4, WorkerCommand::StartSource(source(SourceKind::Af)));
    let status = replay.source_at(SourceOutputState::Requested(SourceKind::Af), None);
    replay.source_answer(&handled, status);
    replay.expect_source(4, SourceOutputState::Requested(SourceKind::Af), None);
    let handled = replay.send(5, WorkerCommand::StopSource);
    assert!(matches!(handled.call, Some(DeviceCall::StopSource)));
    let status = replay.source_at(SourceOutputState::StopSent, None);
    replay.source_answer(&handled, status);
    replay.expect_source(5, SourceOutputState::StopSent, None);
    replay.run(6, plan());
    let cycle = replay.cycle();
    replay.deliver(&cycle, rows(StreamMode::S11, "z", &[50.0, 50.0, 0.0]));
    assert!(matches!(
        replay.event(6),
        WorkerEvent::RunProgress(RunProgress::Waiting { .. })
    ));
    replay.disconnect(7);
}

#[test]
fn late_source_error_releases_the_device_and_reports_unknown() {
    let mut replay = Replay::new();
    replay.first_source(2);
    let status = replay.source_at(SourceOutputState::Unknown, None);
    replay.poll_source(Err(DeviceError::Device("err_par5".to_string())), status);
    replay.released();
    replay.expect_source(2, SourceOutputState::Unknown, None);
    let WorkerEvent::ConnectionLost(message) = replay.event(2) else {
        panic!("the session has to end")
    };
    assert!(message.text("err_par5").contains("err_par5"));
    replay.send(3, WorkerCommand::RunWorkspace(plan()));
    assert!(matches!(replay.event(3), WorkerEvent::ConnectionLost(_)));
}

#[test]
fn late_source_error_releases_output_before_terminal_event_backpressure() {
    let mut replay = Replay::new();
    replay.first_source(2);
    let status = replay.source_at(SourceOutputState::Unknown, None);
    replay.poll_source(Err(DeviceError::Device("err_par5".to_string())), status);
    replay.released();
    replay.expect_source(2, SourceOutputState::Unknown, None);
    assert!(matches!(replay.event(2), WorkerEvent::ConnectionLost(_)));
}

#[test]
fn disconnect_releases_an_active_source_without_starting_a_replacement() {
    let mut replay = Replay::new();
    replay.first_source(2);
    replay.disconnect(3);
    replay.quiet();
}

#[test]
fn full_event_queue_cannot_delay_source_stop_after_late_warning() {
    let mut replay = Replay::new();
    replay.first_source(2);
    let requested = SourceOutputState::Requested(SourceKind::Rf);
    let DevicePoll::Source { owner } = replay.worker.poll() else {
        panic!("an active source has to be polled")
    };
    let report = SourceReport { state: requested, warning: Some(SourceWarning::AboveMaximum) };
    let late = WorkerEvent::SourceReport(report);
    assert_eq!(obsolete_token(&late, owner.cancel, None), Some(Token { id: 2 }));
    let status = replay.source_at(requested, Some(SourceWarning::AboveMaximum));
    replay.poll_source(Ok(()), status);
    replay.expect_source(2, requested, Some(SourceWarning::AboveMaximum));
    let handled = replay.send(3, WorkerCommand::StopSource);
    let status =
        replay.source_at(SourceOutputState::StopSent, Some(SourceWarning::AboveMaximum));
    replay.source_answer(&handled, status);
    replay.expect_source(3, SourceOutputState::StopSent, Some(SourceWarning::AboveMaximum));
    replay.disconnect(4);
}

#[test]
fn rejected_status_and_scan_requests_do_not_block_stop_behind_a_full_queue() {
    for status in [true, false] {
        let mut replay = Replay::new();
        replay.first_source(2);
        let handled = if status {
            replay.send(1, WorkerCommand::RefreshStatus);
            replay.worker.take_status(false, &mut replay.log).unwrap()
        } else {
            replay.send(3, WorkerCommand::RunWorkspace(plan()))
        };
        assert_eq!(handled.guard, Some(Token { id: 2 }));
        replay.read = replay.log.len();
        let handled = replay.send(4, WorkerCommand::StopSource);
        assert_eq!(handled.guard, None);
        let status = replay.source_at(SourceOutputState::StopSent, None);
        replay.source_answer(&handled, status);
        replay.expect_source(4, SourceOutputState::StopSent, None);
        replay.disconnect(5);
    }
}

#[test]
fn invalid_source_start_keeps_the_existing_warning_owner() {
    let identity = WorkerIdentity { session_id: 1, request_id: 2 };
    let mut owner = Some(RequestOwner { identity, cancel: Token { id: 2 } });
    let invalid = SourceParams { port: SourcePort::AfOut, ..source(SourceKind::Rf) };
    let mut envelope = Replay::command(1, 3, WorkerCommand::StartSource(invalid));
    envelope.checks.devices =
        vec![Some(DeviceError::InvalidParameter(Reason::Other("port".to_string())))];
    track_source_request(&envelope, false, identity, &mut owner);
    assert_eq!(owner, Some(RequestOwner { identity, cancel: Token { id: 2 } }));
    envelope.checks.devices = vec![None];
    track_source_request(&envelope, true, identity, &mut owner);
    assert_eq!(owner.unwrap().identity.request_id, 2);
    track_source_request(&envelope, false, identity, &mut owner);
    assert_eq!(owner.unwrap().identity.request_id, 3);
}

#[test]
fn source_start_cancels_an_incomplete_recording_pass() {
    let mut replay = Replay::new();
    replay.run(2, recorded_plan());
    let cycle = replay.cycle();
    replay.worker.acquisition_failed(&cycle, DeviceError::Cancelled, &mut replay.log);
    replay.first_source(3);
    assert!(replay.worker.recording.pending.is_none());
    let handled = replay.send(4, WorkerCommand::StopSource);
    let status = replay.source_at(SourceOutputState::StopSent, None);
    replay.source_answer(&handled, status);
    replay.expect_source(4, SourceOutputState::StopSent, None);
    replay.disconnect(5);
}

#[test]
fn pending_recording_writer_does_not_block_source_start_or_stop() {
    let (mut replay, key) = with_blocked_writer();
    replay.first_source(3);
    assert!(replay.raised.contains(&Token { id: 2 }));
    let handled = replay.send(4, WorkerCommand::StopSource);
    let status = replay.source_at(SourceOutputState::StopSent, None);
    replay.source_answer(&handled, status);
    replay.expect_source(4, SourceOutputState::StopSent, None);
    writer_answers(&mut replay, key);
    replay.disconnect(5);
}

#[test]
fn groups_take_turns_and_every_cycle_has_its_number() {
    let mut replay = Replay::new();
    let plan =
        SweepPlan::from_requests(vec![wish(1, s11()), wish(2, spectrum()), wish(3, s11())]).unwrap();
    replay.run(2, plan);
    let mut seen = Vec::new();
    for _ in 0..5 {
        let cycle = replay.cycle();
        let data = if cycle.group == 0 {
            rows(StreamMode::S11, "z", &[50.0, 50.0, 0.0])
        } else {
            rows(StreamMode::Spec, "", &[-10.0])
        };
        assert!(replay.deliver(&cycle, data).is_none());
        seen.push((cycle.cycle_id, cycle.group));
    }
    assert_eq!(seen, [(1, 0), (2, 1), (3, 0), (4, 1), (5, 0)]);
    let job = replay.worker.state.job.as_ref().unwrap();
    assert_eq!((job.pass_id, job.next_group), (3, 1));
    replay.quiet();
}

#[test]
fn a_recorded_pass_holds_every_member_and_waits_for_the_writer() {
    let mut replay = Replay::new();
    let mut plan =
        SweepPlan::from_requests(vec![wish(1, s11()), wish(2, spectrum()), wish(3, s11())]).unwrap();
    plan.run.recording.enabled = true;
    plan.run.interval_ms = 400;
    replay.run(2, plan);
    let cycle = replay.cycle();
    assert!(replay.deliver(&cycle, rows(StreamMode::S11, "z", &[10.0, 10.0, 0.0])).is_none());
    let cycle = replay.cycle();
    let save = replay.deliver(&cycle, rows(StreamMode::Spec, "", &[-10.0])).unwrap();
    let members: Vec<TraceId> = save.snapshots.iter().map(|(id, _)| *id).collect();
    assert_eq!(members, [TraceId(1), TraceId(3), TraceId(2)]);
    assert!(Arc::ptr_eq(&save.snapshots[0].1, &save.snapshots[1].1));
    replay.worker.pass_submitted(save.key, Ok(()), &cycle, &mut replay.log);
    assert!(matches!(replay.event(2), WorkerEvent::RunProgress(RunProgress::Saving)));
    assert!(replay.worker.waits());
    assert!(!replay.worker.settle(false, NOW, &mut replay.log));
    let identity = replay.worker.state.identity;
    replay.worker.recording.accept_result(
        RecordResult { key: save.key, result: Ok(Some("pass-1.csv".to_string())) },
        identity,
        &mut replay.worker.state.job,
        false,
        Clock { now: NOW, latest: u128::MAX },
        &mut replay.log,
    );
    assert!(matches!(
        replay.event(2),
        WorkerEvent::RunProgress(RunProgress::Saved { pass_id: 1, .. })
    ));
    let until = NOW + 400_000_000;
    assert!(matches!(
        replay.event(2),
        WorkerEvent::RunProgress(RunProgress::Waiting { until: deadline }) if *deadline == until
    ));
    assert!(!replay.worker.settle(false, until - 1, &mut replay.log));
    assert!(replay.worker.settle(false, until, &mut replay.log));
    assert!(matches!(replay.event(2), WorkerEvent::RunProgress(RunProgress::Acquiring)));
    let job = replay.worker.state.job.as_ref().unwrap();
    assert_eq!((job.pass_id, job.phase), (2, RunPhase::Acquiring));
}

#[test]
fn a_recorder_that_refuses_a_pass_ends_the_run() {
    let mut replay = Replay::new();
    replay.run(2, recorded_plan());
    let cycle = replay.cycle();
    let save = replay
        .deliver(&cycle, rows(StreamMode::S11, "z", &[50.0, 50.0, 0.0]))
        .unwrap();
    replay.worker.pass_submitted(save.key, Err("no space".to_string()), &cycle, &mut replay.log);
    let WorkerEvent::Error(message) = replay.event(2) else { panic!("the run has failed") };
    assert_eq!(message.text(""), "Recording failed: no space");
    assert!(matches!(message, Message::Recording(PassError::Recorder(_))));
    assert!(replay.worker.state.job.is_none());
}

#[test]
fn cancelled_jobs_neither_resume_nor_start_a_cycle() {
    let mut replay = Replay::new();
    replay.run(2, plan());
    assert!(replay.worker.begin_cycle(true, &mut replay.log).is_none());
    replay.quiet();
    assert!(replay.raised.contains(&Token { id: 2 }));
    assert!(replay.worker.state.job.is_none());
    replay.run(3, plan());
    assert!(replay.worker.settle(true, NOW, &mut replay.log));
    assert!(replay.worker.state.job.is_none());
    replay.run(4, plan());
    let cycle = replay.cycle();
    let snapshot = Arc::new(CompletedSweep {
        data: rows(StreamMode::S11, "z", &[50.0, 50.0, 0.0]),
        segments: None,
        settings: s11(),
        session_id: 1,
        completed_at: 0,
    });
    let clock = Clock { now: NOW, latest: u128::MAX };
    assert!(replay.worker.delivered(&cycle, &snapshot, true, clock, &mut replay.log).is_none());
    assert!(replay.worker.state.job.is_none());
}

#[test]
fn shutting_down_drops_the_job_and_releases_the_instrument() {
    let mut replay = Replay::new();
    replay.run(2, plan());
    let leave = Replay::command(2, 3, WorkerCommand::Shutdown);
    assert!(replay.worker.on_command(leave, false, &mut replay.log).is_none());
    let identity = replay.worker.state.identity;
    let cycle_id = replay.worker.cycle_id;
    replay.worker.shut_down(&mut replay.log);
    assert_eq!(replay.worker.state.identity, identity);
    assert_eq!(replay.worker.cycle_id, cycle_id);
    replay.quiet_until_release();
    assert!(replay.raised.contains(&Token { id: 2 }));
    assert!(replay.worker.state.job.is_none());
    assert!(replay.worker.state.device.is_none());
}

#[test]
fn previews_stop_with_the_request() {
    assert!(Worker::preview_wanted(false, false, None, 3, None, NOW));
    assert!(Worker::preview_wanted(false, false, Some(NOW), 0, None, NOW));
    assert!(Worker::preview_wanted(false, false, Some(NOW), 3, Some(0), NOW));
    assert!(!Worker::preview_wanted(false, false, Some(NOW), 3, Some(1), NOW));
    assert!(!Worker::preview_wanted(false, false, Some(NOW), 3, None, NOW));
    assert!(!Worker::preview_wanted(true, false, None, 0, None, NOW));
    assert!(!Worker::preview_wanted(false, true, None, 0, None, NOW));
}

#[test]
fn an_active_calibration_refuses_other_work_and_keeps_its_owner() {
    let identity = WorkerIdentity { session_id: 1, request_id: 2 };
    let device = Some(DeviceStatus {
        calibration: CalibrationReport {
            kind: Some(CalibrationKind::S11System),
            phase: CalibrationPhase::Prompt(CalibrationPrompt::Short),
        },
        ..idle()
    });
    let owner = Some(RequestOwner { identity, cancel: Token { id: 2 } });
    let source_start = Replay::command(1, 3, WorkerCommand::StartSource(source(SourceKind::Rf)));
    let mut log = Vec::new();
    assert!(reject_while_active(&source_start.command, &device, identity, &mut log));
    assert!(!log.is_empty());
    assert_eq!(rejection_guard(&source_start, &device, &owner), Some(Token { id: 2 }));
    assert_eq!(source_rejection_guard(&source_start, &device, &owner), None);
    for harmless in [WorkerCommand::CancelCalibration, WorkerCommand::Disconnect] {
        let mut log = Vec::new();
        assert!(!reject_while_active(&harmless, &device, identity, &mut log));
        assert!(log.is_empty());
    }
    let mut present = owner;
    let wrong = Replay::command(1, 3, WorkerCommand::AdvanceCalibration(CalibrationPrompt::Open));
    track_request(&wrong, false, identity, &device, &mut present);
    assert_eq!(present, owner);
    let right = Replay::command(1, 3, WorkerCommand::AdvanceCalibration(CalibrationPrompt::Short));
    track_request(&right, false, identity, &device, &mut present);
    assert_eq!(present.unwrap().identity.request_id, 3);
}

#[test]
fn started_work_answers_to_the_command_that_started_it() {
    let mut replay = Replay::new();
    let handled = replay.send(2, WorkerCommand::StartSource(source(SourceKind::Rf)));
    assert!(matches!(handled.call, Some(DeviceCall::StartSource(_))));
    let owner = replay.worker.source_request.unwrap();
    assert_eq!(owner.identity, WorkerIdentity { session_id: 1, request_id: 2 });
    assert_eq!(owner.cancel, Token { id: 2 });

    let mut replay = Replay::new();
    let start = WorkerCommand::StartCalibration(params(CalibrationKind::S11User));
    let handled = replay.send(3, start);
    assert!(matches!(handled.call, Some(DeviceCall::StartCalibration(_))));
    let owner = replay.worker.calibration_request.unwrap();
    assert_eq!(owner.identity, WorkerIdentity { session_id: 1, request_id: 3 });

    let mut replay = Replay::new();
    replay.worker.state.device = Some(DeviceStatus {
        source: SourceReport {
            state: SourceOutputState::Requested(SourceKind::Rf),
            warning: None,
        },
        ..idle()
    });
    replay.send(3, WorkerCommand::StartCalibration(params(CalibrationKind::S11User)));
    assert_eq!(replay.worker.calibration_request, None);
}

#[test]
fn the_next_group_comes_after_everything_else() {
    let mut replay = Replay::new();
    let handled = replay.send(2, WorkerCommand::RunWorkspace(plan()));
    assert!(handled.call.is_none());
    let worker = &mut replay.worker;
    assert_eq!(next_step(worker, LoopEvent::Started, false), LoopStep::TakeCommand);
    let arrived = LoopEvent::Arrived { waited: false };
    assert_eq!(next_step(worker, arrived, true), LoopStep::HandleCommand);
    let handled = LoopEvent::Handled { ends: false };
    assert_eq!(next_step(worker, handled, false), LoopStep::TakeCommand);
    assert_eq!(next_step(worker, LoopEvent::QueueEmpty, false), LoopStep::AskRecorder);
    assert_eq!(next_step(worker, LoopEvent::RecorderSilent, false), LoopStep::Settle);
    assert_eq!(next_step(worker, LoopEvent::RecorderAnswered, false), LoopStep::TakeCommand);
    let ready = LoopEvent::Settled { ready: true };
    assert_eq!(next_step(worker, ready, false), LoopStep::Acquire);
    assert_eq!(next_step(worker, LoopEvent::Settled { ready: false }, false), LoopStep::TakeCommand);
    assert_eq!(next_step(worker, LoopEvent::Acquired, false), LoopStep::TakeCommand);

    // A status query goes before the recorder and the next group.
    worker.pending_status = Some(Replay::command(1, 2, WorkerCommand::RefreshStatus));
    assert_eq!(next_step(worker, LoopEvent::QueueEmpty, false), LoopStep::AnswerStatus);
    worker.pending_status = None;
    assert_eq!(next_step(worker, LoopEvent::StatusAnswered, false), LoopStep::AskRecorder);

    // What the instrument is doing goes before both.
    let owner = RequestOwner {
        identity: WorkerIdentity { session_id: 1, request_id: 2 },
        cancel: Token { id: 2 },
    };
    worker.source_request = Some(owner);
    worker.state.device = Some(DeviceStatus {
        source: SourceReport {
            state: SourceOutputState::Requested(SourceKind::Rf),
            warning: None,
        },
        ..idle()
    });
    let poll = LoopStep::Poll(DevicePoll::Source { owner });
    assert_eq!(next_step(worker, LoopEvent::QueueEmpty, false), poll);
    assert_eq!(next_step(worker, LoopEvent::StatusAnswered, false), poll);
    assert_eq!(next_step(worker, LoopEvent::InstrumentPolled, false), LoopStep::TakeCommand);

    // Without a job there is nothing but to wait.
    worker.state.job = None;
    assert_eq!(next_step(worker, LoopEvent::Started, false), LoopStep::Wait);
    assert_eq!(next_step(worker, LoopEvent::WaitOver, false), LoopStep::TakeCommand);
}

#[test]
fn the_loop_is_left_on_request_only() {
    let worker = Worker::default();
    for last in [
        LoopEvent::Started,
        LoopEvent::WaitOver,
        LoopEvent::Arrived { waited: true },
        LoopEvent::Handled { ends: false },
        LoopEvent::QueueEmpty,
        LoopEvent::StatusAnswered,
        LoopEvent::InstrumentPolled,
        LoopEvent::RecorderAnswered,
        LoopEvent::Settled { ready: true },
        LoopEvent::Settled { ready: false },
        LoopEvent::Acquired,
    ] {
        assert_eq!(next_step(&worker, last, true), LoopStep::Leave);
        assert_ne!(next_step(&worker, last, false), LoopStep::Leave);
    }
    for last in [LoopEvent::QueueClosed, LoopEvent::Handled { ends: true }] {
        assert_eq!(next_step(&worker, last, false), LoopStep::Leave);
    }
}
