use kcsdi_gui::acquisition::{
    AcquisitionGroup, AcquisitionSettings, Checks, CompletedSweep, SweepDelivery, SweepPlan,
    TraceId, TraceRequest,
};
use kcsdi_gui::analysis_tools::{AnalysisConfig, Color, Marker, MarkerTarget};
use kcsdi_gui::app::{
    closing_text, plot_regions, toggled_fullscreen, FrameResults, KcsdiApp, MenuAction,
    PlotRegions, UiEffect, CONFIG_SAVE_DELAY,
};
use kcsdi_gui::calibration_panel::Pending;
use kcsdi_gui::charts::{
    activate, cartesian_series, displayed_color, prepare_cartesian, smith_layers, take_fit,
    trace_series, use_cartesian, LayerOutcome, Palette, PlotOutcome, ViewLock,
};
use kcsdi_gui::desktop::Page;
use kcsdi_gui::device_lookup::{Ending, Slot};
use kcsdi_gui::device_worker::{Effect, WorkerIdentity};
use kcsdi_gui::messages::{
    CommandEnvelope, ConnectionState, Context, EventEnvelope, InstrumentFunction, Message,
    PassError, RunProgress, StatusMessage, SweepState, Token, WorkerCommand, WorkerEvent,
};
use kcsdi_gui::model::{
    Cal, CalibrationKind, CalibrationParams, CalibrationPhase, CalibrationPrompt,
    CalibrationReport, ConnectionTarget, DeviceError, DeviceInfo, DeviceStatus, Format,
    HealthSnapshot, Lo, PointSettings, Rbw, Real, S11Params, S21Params, SourceKind, SourceOutputState, SourceReport, SpecParams,
    StreamMode, SweepData, SweepPoint,
};
use kcsdi_gui::state::{AfConfig, AppState, HealthState, RfConfig, SourceConfig};
use kcsdi_gui::text::{Language, Text};
use kcsdi_gui::trace_panels::{
    add_button, can_edit, editor_title, finish_trace_editor, prepare_parameters, use_card,
    visibility_text, CardAction, EditorOutcome, TraceEditorAction,
};
use kcsdi_gui::worker_loop::Worker;
use kcsdi_gui::workspace::{
    PlotView, PreviewEnvelope, S11Display, S21Display, SmithView, SweepMode, SweepRange,
    TraceDisplay, TraceEditor, TraceSettings, Width, Workspace, YScale,
};
use std::sync::Arc;

const NOW: u128 = 1_000_000_000_000;
const LANGUAGES: [Language; 2] = [Language::English, Language::SimplifiedChinese];
const IMPEDANCE: TraceDisplay = TraceDisplay::S11(S11Display::Impedance);

fn number(value: f64) -> Real {
    Real { bits: value.to_bits() }
}

fn float(value: Real) -> f64 {
    f64::from_bits(value.bits)
}

fn row(values: &[f64]) -> Vec<Real> {
    values.iter().map(|value| number(*value)).collect()
}

fn view() -> PlotView {
    PlotView {
        x_min: number(1e6),
        x_max: number(2e6),
        y_min: number(-100.0),
        y_max: number(100.0),
        y_divisions: 8,
        y_scale: YScale::Linear,
    }
}

fn settings(display: TraceDisplay) -> TraceSettings {
    TraceSettings {
        display,
        cal: Cal::CalOff,
        rbw: Rbw { hz: 10_000 },
        lo: Lo::HighLo,
        ref_level_dbm: -10,
        visible: true,
        color: Color { r: 1, g: 0, b: 0, a: 255 },
        line_width: Width { bits: 1.0f32.to_bits() },
        impedance_visible: [true, true, true],
    }
}

/// What a trace has to be measured with.
fn acquisition(workspace: &Workspace, settings: &TraceSettings) -> AcquisitionSettings {
    let start_hz = float(workspace.range.start_hz) as u64;
    let stop_hz = float(workspace.range.stop_hz) as u64;
    let points = workspace.range.points;
    let TraceSettings { cal, rbw, lo, ref_level_dbm, .. } = *settings;
    if workspace.sweep_mode == SweepMode::List {
        let point = match settings.display {
            TraceDisplay::Spec => PointSettings::Spec { cal, lo, rbw, ref_level_dbm },
            TraceDisplay::S11(display) => {
                PointSettings::S11 { cal, format: display.wire_format(), rbw: Some(rbw) }
            }
            TraceDisplay::S21(display) => {
                PointSettings::S21 { cal, format: display.wire_format(), lo, rbw: Some(rbw) }
            }
        };
        return AcquisitionSettings::List {
            settings: point,
            frequencies_hz: workspace.frequencies_hz.clone(),
        };
    }
    match settings.display {
        TraceDisplay::Spec => AcquisitionSettings::Spec(SpecParams {
            cal,
            lo,
            points,
            start_hz,
            stop_hz,
            rbw,
            ref_level_dbm,
        }),
        TraceDisplay::S11(display) => AcquisitionSettings::S11(S11Params {
            cal,
            format: display.wire_format(),
            points,
            start_hz,
            stop_hz,
            rbw: Some(rbw),
        }),
        TraceDisplay::S21(display) => AcquisitionSettings::S21(S21Params {
            cal,
            format: display.wire_format(),
            lo,
            points,
            start_hz,
            stop_hz,
            rbw: Some(rbw),
        }),
    }
}

fn plan(workspace: &Workspace) -> SweepPlan {
    let requests = workspace
        .traces
        .iter()
        .filter(|trace| trace.settings.visible)
        .map(|trace| TraceRequest {
            id: trace.id,
            settings: acquisition(workspace, &trace.settings),
            device: None,
        })
        .collect();
    SweepPlan::from_requests(requests).unwrap()
}

fn wanted(app: &KcsdiApp) -> Vec<Option<AcquisitionSettings>> {
    let workspace = &app.state.workspace;
    workspace.traces.iter().map(|trace| Some(acquisition(workspace, &trace.settings))).collect()
}

/// Distances of every trace's markers from the points of a sweep.
fn distances(app: &KcsdiApp, event: &WorkerEvent) -> Vec<Vec<Vec<Real>>> {
    let points: Vec<f64> = match event {
        WorkerEvent::SweepTrace(delivery) => {
            delivery.snapshot.data.points.iter().map(|point| float(point.freq_hz)).collect()
        }
        _ => Vec::new(),
    };
    let from = |marker: &Marker| {
        points.iter().map(|hz| number((hz - float(marker.frequency_hz)).abs())).collect()
    };
    app.state
        .workspace
        .traces
        .iter()
        .map(|trace| trace.analysis.markers().iter().map(from).collect())
        .collect()
}

fn apply(app: &mut KcsdiApp, envelope: EventEnvelope) -> Vec<UiEffect> {
    let wanted = wanted(app);
    let distances = distances(app, &envelope.event);
    app.apply_worker_event(envelope, &wanted, &distances, NOW)
}

fn preview(app: &mut KcsdiApp, preview: PreviewEnvelope) {
    let wanted = wanted(app);
    app.apply_preview(preview, &wanted);
}

fn envelope(session_id: u64, request_id: u64, event: WorkerEvent) -> EventEnvelope {
    EventEnvelope { session_id, request_id, cycle_id: None, event }
}

fn current(app: &KcsdiApp, event: WorkerEvent) -> EventEnvelope {
    envelope(app.state.session_id, app.state.request_id, event)
}

/// A new request for measurements, as the send button makes it.
fn run(app: &mut KcsdiApp) {
    let state = &mut app.state;
    state.request_id += 1;
    state.sweep = SweepState::Running;
    state.active_plan = Some(plan(&state.workspace));
    state.run_progress = Some(RunProgress::Acquiring);
    state.last_recording = None;
    for trace in &mut state.workspace.traces {
        trace.preview = None;
        trace.last_completed_cycle = None;
    }
}

fn stop(app: &mut KcsdiApp) {
    app.state.request_id += 1;
    app.state.sweep = SweepState::Stopping;
    app.state.active_plan = None;
    app.state.run_progress = None;
}

fn completed_impedance() -> SweepData {
    SweepData {
        mode: StreamMode::S11,
        format: "z".to_string(),
        points: (0..3)
            .map(|index| SweepPoint {
                freq_hz: number(1_000_000.0 + f64::from(index) * 500_000.0),
                values: row(&[50.0, 50.0, 0.0]),
            })
            .collect(),
    }
}

fn health(temperature: f64, observed_at: u128) -> HealthSnapshot {
    HealthSnapshot {
        temperature: number(temperature),
        external: number(12.0),
        battery: number(8.0),
        observed_at,
    }
}

fn add(app: &mut KcsdiApp, settings: TraceSettings) -> TraceId {
    app.state.workspace.add_trace(settings, view()).unwrap()
}

fn sources() -> SourceConfig {
    SourceConfig {
        rf: RfConfig { frequency_hz: 1_000_000_000, modulation: "off".to_string() },
        af: AfConfig {
            frequency_hz: 1_000,
            amplitude_mv: 100,
            modulation: "off".to_string(),
            pm_phase_deg: 0,
        },
    }
}

fn active_impedance_app() -> KcsdiApp {
    let range = SweepRange { start_hz: number(1e6), stop_hz: number(2e6), points: 3 };
    let smith = SmithView { zoom: number(1.0), dx: number(0.0), dy: number(0.0) };
    let workspace = Workspace::empty(range, view(), smith);
    let mut state = AppState::new(workspace, Language::English, sources());
    state.connection = ConnectionState::Connected;
    state.session_id = 1;
    state.health.succeed(health(42.0, NOW), NOW);
    let mut app = KcsdiApp {
        state,
        dirty_since: None,
        connection_open: false,
        worker: false,
        closing: false,
    };
    add(&mut app, settings(IMPEDANCE));
    run(&mut app);
    let snapshot = Arc::new(CompletedSweep {
        data: completed_impedance(),
        segments: None,
        settings: app.state.active_plan.as_ref().unwrap().groups[0].settings.clone(),
        session_id: 1,
        completed_at: 0,
    });
    let trace = &mut app.state.workspace.traces[0];
    trace.analysis.observe(&snapshot, &Vec::new());
    trace.completed = Some(snapshot);
    trace.needs_fit = false;
    app
}

fn selected(app: &KcsdiApp) -> &kcsdi_gui::workspace::TraceState {
    let id = app.state.workspace.selected.unwrap();
    app.state.workspace.traces.iter().find(|trace| trace.id == id).unwrap()
}

fn selected_mut(app: &mut KcsdiApp) -> &mut kcsdi_gui::workspace::TraceState {
    let id = app.state.workspace.selected.unwrap();
    app.state.workspace.traces.iter_mut().find(|trace| trace.id == id).unwrap()
}

fn complete_data(app: &KcsdiApp) -> Option<&SweepData> {
    selected(app).completed.as_ref().map(|snapshot| &snapshot.data)
}

fn group_of(app: &KcsdiApp, group: usize) -> AcquisitionGroup {
    let group = &app.state.active_plan.as_ref().unwrap().groups[group];
    AcquisitionGroup { settings: group.settings.clone(), members: group.members.clone() }
}

fn group_rows(group: &AcquisitionGroup, points: usize) -> SweepData {
    let mut data = completed_impedance();
    data.mode = group.settings.mode();
    data.format = group.settings.format().to_string();
    data.points.truncate(points);
    for point in &mut data.points {
        match data.format.as_str() {
            "" => point.values = row(&[-20.0]),
            "ma" => point.values = row(&[0.5, -90.0]),
            "loss" => point.values = row(&[-3.0]),
            "delay" => point.values = row(&[-5e-9]),
            _ => {}
        }
    }
    data
}

fn prefix(app: &KcsdiApp, group: usize, cycle_id: u64, points: usize) -> PreviewEnvelope {
    let group = group_of(app, group);
    PreviewEnvelope {
        session_id: app.state.session_id,
        request_id: app.state.request_id,
        cycle_id,
        data: group_rows(&group, points),
        group,
    }
}

fn completion_of(app: &KcsdiApp, group: usize, cycle: u64, data: SweepData) -> EventEnvelope {
    let group = group_of(app, group);
    EventEnvelope {
        session_id: app.state.session_id,
        request_id: app.state.request_id,
        cycle_id: Some(cycle),
        event: WorkerEvent::SweepTrace(SweepDelivery {
            members: group.members,
            snapshot: Arc::new(CompletedSweep {
                data,
                segments: None,
                settings: group.settings,
                session_id: app.state.session_id,
                completed_at: 0,
            }),
        }),
    }
}

fn completion(app: &KcsdiApp, group: usize, cycle: u64) -> EventEnvelope {
    completion_of(app, group, cycle, group_rows(&group_of(app, group), 3))
}

fn report(kind: CalibrationKind, phase: CalibrationPhase) -> WorkerEvent {
    WorkerEvent::CalibrationReport(CalibrationReport { kind: Some(kind), phase })
}

fn failure(words: &str) -> Message {
    Message::Other(words.to_string())
}

#[test]
fn recording_progress_is_request_scoped_and_cannot_restart_stopped_work() {
    let mut app = active_impedance_app();
    let session = app.state.session_id;
    let request = app.state.request_id;
    let progress = |session, request, progress| {
        envelope(session, request, WorkerEvent::RunProgress(progress))
    };
    let saved = |path: &str, pass_id| RunProgress::Saved { path: path.to_string(), pass_id };
    apply(&mut app, progress(session, request, RunProgress::Saving));
    assert!(matches!(app.state.run_progress, Some(RunProgress::Saving)));
    assert!(app.state.any_running());
    apply(&mut app, progress(session, request, saved("recording-test.csv", 2)));
    apply(&mut app, progress(session, request, saved("recording-test.old", 1)));
    assert_eq!(app.state.last_recording, Some((2, "recording-test.csv".to_string())));
    run(&mut app);
    assert!(app.state.request_id > request);
    assert!(app.state.last_recording.is_none());
    apply(&mut app, progress(session, request, saved("recording-test.csv", 3)));
    assert!(app.state.last_recording.is_none());
    let request = app.state.request_id;
    apply(&mut app, progress(session + 1, request, RunProgress::Saving));
    assert!(matches!(app.state.run_progress, Some(RunProgress::Acquiring)));
    stop(&mut app);
    let request = app.state.request_id;
    apply(&mut app, progress(session, request, RunProgress::Waiting { until: NOW + 60 }));
    assert!(matches!(app.state.sweep, SweepState::Stopping));
    assert!(app.state.run_progress.is_none());
    assert!(complete_data(&app).is_some());
}

#[test]
fn source_switches_stop_the_previous_operation_and_reject_stale_reports() {
    let mut app = active_impedance_app();
    let sweep_request = app.state.request_id;
    let effects = app.menu(MenuAction::Function(InstrumentFunction::RfSource), false);
    assert!(matches!(
        effects[..],
        [UiEffect::SelectFunction(InstrumentFunction::RfSource)]
    ));
    app.state.function = InstrumentFunction::RfSource;
    stop(&mut app);
    apply(&mut app, envelope(1, sweep_request, WorkerEvent::SweepStopped));
    assert!(matches!(app.state.sweep, SweepState::Stopping));
    let stopped = current(&app, WorkerEvent::SweepStopped);
    apply(&mut app, stopped);
    assert!(matches!(app.state.sweep, SweepState::Idle));
    app.state.request_id += 1;
    let source_request = app.state.request_id;
    let started = SourceReport {
        state: SourceOutputState::Requested(SourceKind::Rf),
        warning: None,
    };
    let told = apply(
        &mut app,
        envelope(1, source_request, WorkerEvent::SourceReport(started)),
    );
    assert!(matches!(told[..], [UiEffect::SourceAccept(report)] if report == started));
    assert!(!app.state.any_running());
    app.state.request_id += 1;
    let stale = apply(
        &mut app,
        envelope(1, source_request, WorkerEvent::SourceReport(started)),
    );
    assert!(stale.is_empty());
    assert_eq!(complete_data(&app), Some(&completed_impedance()));
    assert!(app.state.active_plan.is_none());
}

#[test]
fn unknown_source_blocks_measurements_and_health_after_reconnect() {
    let mut app = active_impedance_app();
    app.state.sweep = SweepState::Idle;
    app.state.active_plan = None;
    app.state.source.report.state = SourceOutputState::Unknown;
    let effects = app.clear_connection();
    assert!(matches!(
        effects[..],
        [UiEffect::SourceLost, UiEffect::CancelAcquisition, UiEffect::CancelSession]
    ));
    app.state.connection = ConnectionState::Connected;
    app.state.function = InstrumentFunction::Measurements;
    let request = app.state.request_id;

    // The worker refuses both requests on an instrument whose source may be on.
    let mut worker = Worker::default();
    worker.state.identity = WorkerIdentity { session_id: 1, request_id: request };
    worker.state.device = Some(DeviceStatus {
        calibration: CalibrationReport { kind: None, phase: CalibrationPhase::NotStarted },
        source: app.state.source.report,
        requires_reconnect: false,
    });
    let send = |command, verdicts: usize| CommandEnvelope {
        session_id: 1,
        request_id: request,
        cancel: Token { id: 1 },
        command,
        checks: Checks { run: None, devices: (0..verdicts).map(|_| None).collect() },
    };
    let plan = plan(&app.state.workspace);
    let groups = plan.groups.len();
    let mut log = Vec::new();
    let run = worker
        .on_command(send(WorkerCommand::RunWorkspace(plan), groups), false, &mut log)
        .unwrap();
    assert!(run.call.is_none());
    assert!(worker.state.job.is_none());
    assert!(matches!(
        &log[..],
        [Effect::Emit(EventEnvelope {
            event: WorkerEvent::Error(Message::Failure {
                context: Context::Run,
                error: DeviceError::SourceActive,
            }),
            ..
        })]
    ));
    log.clear();
    worker.on_command(send(WorkerCommand::RefreshStatus, 0), false, &mut log).unwrap();
    let status = worker.take_status(false, &mut log).unwrap();
    assert!(status.call.is_none());
    assert!(matches!(
        &log[..],
        [Effect::Emit(EventEnvelope {
            event: WorkerEvent::StatusFailed(Message::SourceBlocksStatus),
            ..
        })]
    ));
    for effect in log {
        let Effect::Emit(event) = effect else { panic!("unexpected effect: {effect:?}") };
        apply(&mut app, event);
    }
    assert_eq!(app.state.request_id, request);
    assert!(!app.state.health.pending);
    assert!(!app.state.any_running());
    assert!(!app.instrument_view(true).can_calibrate);
}

#[test]
fn calibration_retains_complete_exports_and_rejects_stale_step_reports() {
    let mut app = active_impedance_app();
    let completed = selected(&app).completed.clone().unwrap();
    let chosen = app.state.workspace.selected;
    for display in [IMPEDANCE, TraceDisplay::Spec] {
        let id = add(&mut app, TraceSettings { visible: false, ..settings(display) });
        let trace =
            app.state.workspace.traces.iter_mut().find(|trace| trace.id == id).unwrap();
        trace.completed = Some(completed.clone());
    }
    app.state.workspace.selected = chosen;
    assert_eq!(app.state.workspace.traces.len(), 3);
    for trace in &mut app.state.workspace.traces {
        trace.analysis.restore_config(&AnalysisConfig {
            hold: true,
            max_hold: true,
            ..AnalysisConfig::default()
        });
        trace.analysis.observe(&completed, &Vec::new());
        assert!(trace.analysis.held_trace().is_some());
    }
    let previous_request = app.state.request_id;
    app.state.request_id += 1;
    app.state.sweep = SweepState::Idle;
    app.state.active_plan = None;
    app.state
        .calibration
        .sent(&WorkerCommand::StartCalibration(CalibrationParams::S11System));
    for trace in &mut app.state.workspace.traces {
        trace.analysis.invalidate_measurements();
    }
    assert!(!app.state.any_running());
    assert!(app.state.active_plan.is_none());
    for trace in &app.state.workspace.traces {
        assert!(Arc::ptr_eq(trace.completed.as_ref().unwrap(), &completed));
        assert!(trace.analysis.held_trace().is_none());
    }
    assert!(app.state.calibration.busy());
    let current_request = app.state.request_id;
    let kind = CalibrationKind::S11System;
    apply(&mut app, envelope(1, previous_request, report(kind, CalibrationPhase::Completed)));
    assert_eq!(app.state.calibration.report.phase, CalibrationPhase::NotStarted);
    let short = CalibrationPhase::Prompt(CalibrationPrompt::Short);
    apply(&mut app, envelope(1, current_request, report(kind, short)));
    assert_eq!(app.state.calibration.current_prompt, Some(CalibrationPrompt::Short));
    app.state.request_id += 1;
    app.state
        .calibration
        .sent(&WorkerCommand::AdvanceCalibration(CalibrationPrompt::Short));
    let open = CalibrationPhase::Prompt(CalibrationPrompt::Open);
    apply(&mut app, envelope(1, current_request, report(kind, open)));
    assert_eq!(app.state.calibration.current_prompt, Some(CalibrationPrompt::Short));
    app.state.request_id += 1;
    app.state.calibration.sent(&WorkerCommand::CancelCalibration);
    let cancelled = current(&app, report(kind, CalibrationPhase::Cancelled));
    apply(&mut app, cancelled);
    assert!(!app.state.calibration.busy());
    let trace = selected(&app);
    assert!(Arc::ptr_eq(trace.completed.as_ref().unwrap(), &completed));
    assert!(trace.analysis.held_trace().is_none());
}

#[test]
fn calibration_rejection_keeps_authoritative_prompt_and_cancel_available() {
    let mut app = active_impedance_app();
    app.state
        .calibration
        .sent(&WorkerCommand::StartCalibration(CalibrationParams::S11System));
    let phase = CalibrationPhase::Prompt(CalibrationPrompt::Open);
    let kind = CalibrationKind::S11System;
    let prompt = CalibrationReport { kind: Some(kind), phase };
    let answer = current(&app, report(kind, phase));
    apply(&mut app, answer);
    let refusal = current(
        &app,
        WorkerEvent::Error(failure("Calibration rejected an out-of-date step")),
    );
    apply(&mut app, refusal);
    assert_eq!(app.state.calibration.report, prompt);
    assert!(app.state.calibration.busy());
    assert!(app.state.calibration.error.is_some());
    app.state.request_id += 1;
    app.state.calibration.sent(&WorkerCommand::CancelCalibration);
    assert_eq!(app.state.calibration.pending, Some(Pending::Cancel));
    let answer = current(&app, report(kind, phase));
    apply(&mut app, answer);
    let refusal = current(
        &app,
        WorkerEvent::Error(failure("Calibration control request was rejected")),
    );
    apply(&mut app, refusal);
    assert_eq!(app.state.calibration.report, prompt);
    assert_eq!(app.state.calibration.pending, None);
    assert!(app.state.calibration.busy());
}

#[test]
fn recording_error_preserves_connection_and_complete_measurements() {
    let mut app = active_impedance_app();
    let error = Message::Recording(PassError::Recorder("disk full".to_string()));
    let event = current(&app, WorkerEvent::Error(error));
    apply(&mut app, event);
    assert!(matches!(app.state.connection, ConnectionState::Connected));
    assert!(matches!(app.state.sweep, SweepState::Idle));
    assert!(app.state.run_progress.is_none());
    assert_eq!(complete_data(&app), Some(&completed_impedance()));
    assert!(app.state.status_message.is_some());
}

#[test]
fn changing_same_count_list_rejects_old_completions_and_previews() {
    let mut app = active_impedance_app();
    let original = selected(&app).completed.clone().unwrap();
    app.state.workspace.sweep_mode = SweepMode::List;
    app.state.workspace.frequencies_hz = vec![1_000_000, 1_500_000, 2_000_000];
    run(&mut app);
    let stale = completion(&app, 0, 1);
    let old_preview = prefix(&app, 0, 1, 2);
    app.state.workspace.frequencies_hz[1] = 1_750_000;
    apply(&mut app, stale);
    preview(&mut app, old_preview);
    assert!(Arc::ptr_eq(selected(&app).completed.as_ref().unwrap(), &original));
    assert!(selected(&app).preview.is_none());
    run(&mut app);
    let event = completion(&app, 0, 2);
    apply(&mut app, event);
    let complete = selected(&app).completed.as_ref().unwrap();
    assert_eq!(
        complete.settings,
        app.state.active_plan.as_ref().unwrap().groups[0].settings
    );
    assert!(matches!(
        &complete.settings,
        AcquisitionSettings::List { frequencies_hz, .. } if frequencies_hz[1] == 1_750_000
    ));
}

#[test]
fn trace_card_background_selects_without_stealing_child_controls() {
    for language in LANGUAGES {
        let mut app = active_impedance_app();
        app.state.language = language;
        let second = add(&mut app, settings(TraceDisplay::Spec));
        app.state.workspace.selected = Some(TraceId(1));
        let request = app.state.request_id;
        use_card(&mut app.state.workspace, second, CardAction::Select);
        assert_eq!(app.state.workspace.selected, Some(second));
        assert_eq!(app.state.request_id, request);
        app.state.workspace.selected = Some(TraceId(1));
        use_card(&mut app.state.workspace, second, CardAction::Toggle);
        use_card(&mut app.state.workspace, second, CardAction::Edit);
        assert_eq!(app.state.workspace.selected, Some(TraceId(1)));
        assert!(!app.state.workspace.traces[1].settings.visible);
        assert_eq!(app.state.workspace.editor.as_ref().unwrap().id, Some(second));
        use_card(&mut app.state.workspace, second, CardAction::Delete);
        assert_eq!(app.state.workspace.traces.len(), 1);
        assert_eq!(app.state.request_id, request);
    }
}

fn two_marker_traces(display: S11Display) -> KcsdiApp {
    let mut app = active_impedance_app();
    app.state.workspace.traces[0].settings.display = TraceDisplay::S11(display);
    add(&mut app, settings(TraceDisplay::S11(display)));
    run(&mut app);
    let mut data = group_rows(&group_of(&app, 0), 3);
    for (point, resistance) in data.points.iter_mut().zip([10.0, 50.0, 200.0]) {
        point.values = row(&[resistance, resistance, 0.0]);
    }
    let event = completion_of(&app, 0, 1, data);
    apply(&mut app, event);
    let smith = display == S11Display::Smith;
    for trace in &mut app.state.workspace.traces {
        trace.analysis.set_smith(smith);
        trace.analysis.restore_config(&AnalysisConfig {
            markers: vec![Marker {
                id: 1,
                frequency_hz: number(1e6),
                selected: true,
                reference: false,
                auto_peak: false,
            }],
            hold: true,
            column: 1,
            target: if smith { MarkerTarget::Hold } else { MarkerTarget::Current },
            ..Default::default()
        });
        let snapshot = trace.completed.clone().unwrap();
        trace.analysis.observe(&snapshot, &vec![row(&[0.0, 0.5e6, 1e6])]);
    }
    app.state.workspace.selected = Some(TraceId(1));
    let partial = prefix(&app, 0, 2, 1);
    preview(&mut app, partial);
    app
}

#[test]
fn compatible_preview_markers_drag_on_complete_targets_and_select_their_trace() {
    for display in [S11Display::Resistance, S11Display::Smith] {
        let mut app = two_marker_traces(display);
        let request = app.state.request_id;
        let original = app.state.workspace.traces[1].completed.clone().unwrap();
        let target = if display == S11Display::Smith {
            let layers = smith_layers(&app.state.workspace, &palette());
            layers.into_iter().find(|layer| layer.trace == 1).unwrap().marker_data.unwrap()
        } else {
            let prepared =
                prepare_cartesian(&mut app.state.workspace, Language::English, &palette());
            assert_eq!(prepared[1].markers, row(&[1e6, 1.5e6, 2e6]));
            app.state.workspace.traces[1].analysis.marker_trace().unwrap()
        };
        assert_eq!(target.points.len(), 3);
        assert_eq!(app.state.workspace.selected, Some(TraceId(1)));
        app.state.workspace.traces[1].analysis.move_selected(
            &target,
            number(1.9e6),
            &row(&[0.9e6, 0.4e6, 0.1e6]),
        );
        activate(&mut app.state.workspace, Some(TraceId(2)));
        assert_eq!(app.state.workspace.selected, Some(TraceId(2)));
        let traces = &app.state.workspace.traces;
        assert_eq!(traces[1].analysis.markers()[0].frequency_hz, number(2e6));
        assert_eq!(traces[0].analysis.markers()[0].frequency_hz, number(1e6));
        assert_eq!(app.state.request_id, request);
        assert!(Arc::ptr_eq(traces[1].completed.as_ref().unwrap(), &original));
        assert_eq!(traces[1].preview.as_ref().unwrap().data.points.len(), 1);
    }
}

#[test]
fn incompatible_preview_or_missing_hold_hides_markers_without_blocking_pan() {
    for display in [S11Display::Resistance, S11Display::Smith] {
        for missing_hold in [false, true] {
            let mut app = two_marker_traces(display);
            for trace in &mut app.state.workspace.traces {
                if missing_hold {
                    let markers = trace.analysis.markers().clone();
                    trace.analysis.restore_config(&AnalysisConfig {
                        markers,
                        target: MarkerTarget::Hold,
                        ..Default::default()
                    });
                } else {
                    let old = trace.preview.take().unwrap();
                    trace.preview = Some(Arc::new(PreviewEnvelope {
                        session_id: old.session_id + 1,
                        request_id: old.request_id,
                        cycle_id: old.cycle_id,
                        group: AcquisitionGroup {
                            settings: old.group.settings.clone(),
                            members: old.group.members.clone(),
                        },
                        data: kcsdi_gui::analysis_tools::copy_data(&old.data),
                    }));
                }
            }
            if display == S11Display::Smith {
                let layers = smith_layers(&app.state.workspace, &palette());
                assert!(layers.iter().all(|layer| layer.marker_data.is_none()));
            } else {
                let prepared =
                    prepare_cartesian(&mut app.state.workspace, Language::English, &palette());
                assert!(prepared.iter().all(|layer| layer.markers.is_empty()));
            }
            assert_eq!(app.state.workspace.selected, Some(TraceId(1)));
        }
    }
}

#[test]
fn marker_center_replaces_only_active_acquisition_and_rejects_old_deliveries() {
    let mut app = active_impedance_app();
    let old_delivery = completion(&app, 0, 2);
    let old_request = app.state.request_id;
    center_on_marker(&mut app, 3e6);
    reconcile_plan(&mut app);
    assert!(app.state.request_id > old_request);
    let WorkerEvent::SweepTrace(delivery) = &old_delivery.event else { unreachable!() };
    assert!(!app.accepts_group(&AcquisitionGroup {
        settings: delivery.snapshot.settings.clone(),
        members: delivery.members.clone(),
    }));
    assert_eq!(center_and_span(&app), (3e6, 1e6));
    apply(&mut app, old_delivery);
    assert_eq!(complete_data(&app), Some(&completed_impedance()));

    stop(&mut app);
    app.state.sweep = SweepState::Idle;
    let request = app.state.request_id;
    center_on_marker(&mut app, 4e6);
    reconcile_plan(&mut app);
    assert_eq!(center_and_span(&app), (4e6, 1e6));
    assert_eq!(app.state.request_id, request);
    assert_eq!(app.state.sweep, SweepState::Idle);
    assert!(app.state.active_plan.is_none());
}

/// Select a marker at this frequency, and move the sweep around it.
fn center_on_marker(app: &mut KcsdiApp, hz: f64) {
    let (_, span) = center_and_span(app);
    let analysis = &mut selected_mut(app).analysis;
    analysis.restore_config(&AnalysisConfig {
        markers: vec![
            Marker {
                id: 1,
                frequency_hz: number(1e6),
                selected: false,
                reference: false,
                auto_peak: false,
            },
            Marker {
                id: 2,
                frequency_hz: number(hz),
                selected: true,
                reference: false,
                auto_peak: false,
            },
        ],
        ..AnalysisConfig::default()
    });
    let marker = analysis.selected_marker().unwrap();
    assert_eq!(marker.id, 2);
    let center = float(marker.frequency_hz);
    let range = &mut app.state.workspace.range;
    range.start_hz = number(center - span / 2.0);
    range.stop_hz = number(center + span / 2.0);
}

fn center_and_span(app: &KcsdiApp) -> (f64, f64) {
    let range = app.state.workspace.range;
    let (start, stop) = (float(range.start_hz), float(range.stop_hz));
    ((start + stop) / 2.0, stop - start)
}

/// A running measurement is asked for anew where its definitions have changed.
fn reconcile_plan(app: &mut KcsdiApp) {
    if app.state.any_running() {
        run(app);
    }
}

#[test]
fn automatic_marker_tracks_only_accepted_complete_snapshots_without_restarting() {
    let mut app = active_impedance_app();
    selected_mut(&mut app).analysis.restore_config(&AnalysisConfig {
        markers: vec![Marker {
            id: 1,
            frequency_hz: number(1_500_000.0),
            selected: true,
            reference: false,
            auto_peak: true,
        }],
        column: 1,
        ..Default::default()
    });
    let request = app.state.request_id;
    let mut partial = prefix(&app, 0, 2, 2);
    partial.data.points[1].values[1] = number(1000.0);
    preview(&mut app, partial);
    let frequency = |app: &KcsdiApp| float(selected(app).analysis.markers()[0].frequency_hz);
    assert_eq!(frequency(&app), 1_500_000.0);
    let mut data = completed_impedance();
    data.points[2].values[1] = number(100.0);
    let delivery = completion_of(&app, 0, 2, data);
    apply(&mut app, delivery);
    assert_eq!(frequency(&app), 2_000_000.0);
    let late = completion(&app, 0, 1);
    apply(&mut app, late);
    assert_eq!(frequency(&app), 2_000_000.0);
    assert_eq!(app.state.request_id, request);
}

fn palette() -> Palette {
    let color = |r: u8, g: u8| Color { r, g, b: 0, a: 255 };
    Palette {
        base: vec![color(1, 0), color(2, 0), color(3, 0)],
        shown: vec![color(1, 9), color(2, 9), color(3, 9)],
    }
}

#[test]
fn transmission_series_keep_signed_raw_values_and_seconds_in_both_languages() {
    for (display, format, values, expected, unit) in [
        (S21Display::Phase, "ma", vec![0.5, -90.0], -90.0, "deg"),
        (S21Display::Loss, "loss", vec![-3.0], -3.0, "dB"),
        (S21Display::Delay, "delay", vec![-5e-9], -5e-9, "s"),
    ] {
        for language in LANGUAGES {
            let mut data = SweepData {
                mode: StreamMode::S21,
                format: format.to_string(),
                points: vec![SweepPoint { freq_hz: number(1e6), values: row(&values) }],
            };
            let settings = settings(TraceDisplay::S21(display));
            let series = trace_series(&settings, Some(&data), language, &palette());
            assert_eq!(series[0].points, [(number(1e6), number(expected))]);
            assert_eq!(series[0].name, display.label(language));
            let column = settings.display.columns()[0];
            assert_eq!(kcsdi_gui::analysis_tools::column_unit(&data, column).text(), unit);
            data.mode = StreamMode::S11;
            assert!(trace_series(&settings, Some(&data), language, &palette()).is_empty());
        }
    }
}

#[test]
fn same_wire_s11_and_s21_results_stay_with_their_own_members_and_requests() {
    let mut app = active_impedance_app();
    selected_mut(&mut app).settings.display = TraceDisplay::S11(S11Display::Phase);
    let transmission = add(&mut app, settings(TraceDisplay::S21(S21Display::Phase)));
    run(&mut app);
    assert_eq!(app.state.active_plan.as_ref().unwrap().groups.len(), 2);
    let first = completion(&app, 0, 1);
    apply(&mut app, first);
    assert!(selected(&app).completed.is_none());
    let partial = prefix(&app, 1, 2, 2);
    preview(&mut app, partial);
    assert!(app.state.workspace.traces[0].preview.is_none());
    let second = completion(&app, 1, 2);
    apply(&mut app, second);
    let complete = selected(&app).completed.clone().unwrap();
    assert_eq!(complete.data.mode, StreamMode::S21);
    assert_eq!(
        app.state.workspace.traces[0].completed.as_ref().unwrap().data.mode,
        StreamMode::S11
    );
    let stale = completion(&app, 1, 3);
    app.state.workspace.selected = Some(transmission);
    selected_mut(&mut app).settings.lo = Lo::LowLo;
    run(&mut app);
    apply(&mut app, stale);
    assert!(Arc::ptr_eq(selected(&app).completed.as_ref().unwrap(), &complete));
    assert!(selected(&app).last_completed_cycle.is_none());
}

#[test]
fn shared_group_routes_one_snapshot_without_advancing_other_group_watermarks() {
    let mut app = active_impedance_app();
    add(&mut app, settings(TraceDisplay::S11(S11Display::Smith)));
    add(&mut app, settings(TraceDisplay::Spec));
    run(&mut app);
    assert_eq!(app.state.active_plan.as_ref().unwrap().groups.len(), 2);
    let partial = prefix(&app, 0, 2, 2);
    preview(&mut app, partial);
    let partial = prefix(&app, 1, 3, 1);
    preview(&mut app, partial);
    let a = app.state.workspace.traces[0].preview.as_ref().unwrap();
    let b = app.state.workspace.traces[1].preview.as_ref().unwrap();
    assert!(Arc::ptr_eq(a, b));
    let event = completion(&app, 0, 1);
    apply(&mut app, event);
    for trace in &app.state.workspace.traces[..2] {
        assert_eq!(trace.last_completed_cycle, Some(1));
        assert_eq!(trace.preview.as_ref().unwrap().cycle_id, 2);
    }
    let a = app.state.workspace.traces[0].completed.as_ref().unwrap();
    let b = app.state.workspace.traces[1].completed.as_ref().unwrap();
    assert!(Arc::ptr_eq(a, b));
    let other = &app.state.workspace.traces[2];
    assert_eq!(other.last_completed_cycle, None);
    assert_eq!(other.preview.as_ref().unwrap().cycle_id, 3);
    let event = completion(&app, 0, 2);
    apply(&mut app, event);
    assert!(app.state.workspace.traces[0].preview.is_none());
    assert!(app.state.workspace.traces[1].preview.is_none());
    assert!(app.state.workspace.traces[2].preview.is_some());
    let late = prefix(&app, 0, 2, 2);
    preview(&mut app, late);
    assert!(app.state.workspace.traces[0].preview.is_none());
}

#[test]
fn invalid_or_unowned_deliveries_do_not_poison_completed_snapshots() {
    let mut app = active_impedance_app();
    for kind in 0..5 {
        let mut group = group_of(&app, 0);
        let mut data = completed_impedance();
        let mut session_id = app.state.session_id;
        let mut cycle_id = Some(2);
        match kind {
            0 => group.members.push(TraceId(999)),
            1 => data.format = "ma".to_string(),
            2 => {
                data.points.pop();
            }
            3 => session_id += 1,
            _ => cycle_id = None,
        }
        let event = EventEnvelope {
            session_id: app.state.session_id,
            request_id: app.state.request_id,
            cycle_id,
            event: WorkerEvent::SweepTrace(SweepDelivery {
                members: group.members,
                snapshot: Arc::new(CompletedSweep {
                    data,
                    segments: None,
                    settings: group.settings,
                    session_id,
                    completed_at: 0,
                }),
            }),
        };
        apply(&mut app, event);
        assert_eq!(complete_data(&app), Some(&completed_impedance()));
        assert!(selected(&app).last_completed_cycle.is_none());
    }
}

#[test]
fn stop_edit_restart_rejects_old_same_shape_results_and_errors() {
    let mut app = active_impedance_app();
    let stale = completion(&app, 0, 2);
    let stale_preview = prefix(&app, 0, 3, 2);
    let old_request = app.state.request_id;
    stop(&mut app);
    selected_mut(&mut app).settings.cal = Cal::CalSys;
    run(&mut app);
    apply(&mut app, stale);
    preview(&mut app, stale_preview);
    let error = WorkerEvent::Error(failure("old acquisition rejected"));
    apply(&mut app, envelope(1, old_request, error));
    assert!(app.state.any_running());
    assert!(app.state.status_message.is_none());
    assert_eq!(complete_data(&app), Some(&completed_impedance()));
    assert!(selected(&app).preview.is_none());
    assert!(selected(&app).last_completed_cycle.is_none());
    let event = completion(&app, 0, 4);
    apply(&mut app, event);
    assert_eq!(selected(&app).last_completed_cycle, Some(4));
}

#[test]
fn edits_are_checked_even_before_plan_reconciliation_and_deleted_ids_never_receive_data() {
    let mut app = active_impedance_app();
    let event = completion(&app, 0, 1);
    selected_mut(&mut app).settings.rbw = Rbw { hz: 3_000 };
    apply(&mut app, event);
    assert!(selected(&app).last_completed_cycle.is_none());
    let stale = completion(&app, 0, 2);
    let old_id = app.state.workspace.selected.unwrap();
    app.state.workspace.remove_trace(old_id);
    let id = add(&mut app, settings(IMPEDANCE));
    assert_ne!(id, old_id);
    apply(&mut app, stale);
    assert!(selected(&app).completed.is_none());
}

#[test]
fn stop_requires_the_current_workers_acknowledgement() {
    let mut app = active_impedance_app();
    let old_request = app.state.request_id;
    stop(&mut app);
    for request in [old_request, app.state.request_id] {
        apply(&mut app, envelope(1, request, WorkerEvent::SweepStopped));
        assert_eq!(matches!(app.state.sweep, SweepState::Stopping), request == old_request);
    }
    assert!(matches!(app.state.sweep, SweepState::Idle));
    assert_eq!(complete_data(&app), Some(&completed_impedance()));
    assert!(matches!(app.state.connection, ConnectionState::Connected));
}

#[test]
fn old_holds_are_not_drawn_with_new_condition_previews() {
    for display in [IMPEDANCE, TraceDisplay::S11(S11Display::Smith), TraceDisplay::Spec] {
        let mut app = active_impedance_app();
        selected_mut(&mut app).settings.display = display;
        run(&mut app);
        let event = completion(&app, 0, 1);
        apply(&mut app, event);
        let snapshot = selected(&app).completed.clone().unwrap();
        let trace = selected_mut(&mut app);
        trace.analysis.set_smith(display.is_smith());
        trace
            .analysis
            .toggle_hold(kcsdi_gui::analysis_tools::HoldKind::Frozen, Some(&snapshot.data));
        assert!(trace.analysis.held_trace().is_some());
        if display == TraceDisplay::Spec {
            trace.settings.ref_level_dbm -= 10;
        } else {
            trace.settings.cal = Cal::CalSys;
        }
        run(&mut app);
        let empty = prefix(&app, 0, 2, 0);
        preview(&mut app, empty);
        assert!(selected(&app).overlays_compatible());
        let partial = prefix(&app, 0, 2, 2);
        preview(&mut app, partial);
        assert!(!selected(&app).overlays_compatible());
        if display.is_smith() {
            let layers = smith_layers(&app.state.workspace, &palette());
            assert!(layers[0].held.is_none());
        } else {
            let prepared =
                prepare_cartesian(&mut app.state.workspace, Language::English, &palette());
            assert_eq!(prepared[0].series.len(), prepared[0].base_count);
        }
        assert!(Arc::ptr_eq(selected(&app).completed.as_ref().unwrap(), &snapshot));
        assert!(selected(&app).analysis.held_trace().is_some());
    }
}

#[test]
fn new_prefixes_do_not_fit_y_or_reset_the_shared_x_zoom() {
    for points in [0, 2] {
        let mut app = active_impedance_app();
        app.state.workspace.x_view.x_min = number(1_100_000.0);
        app.state.workspace.x_view.x_max = number(1_900_000.0);
        selected_mut(&mut app).needs_fit = true;
        let mut pending = prefix(&app, 0, 2, points);
        for point in &mut pending.data.points {
            point.values = row(&[10_000.0, 10_000.0, 0.0]);
        }
        preview(&mut app, pending);
        let prepared = prepare_cartesian(&mut app.state.workspace, Language::English, &palette());
        assert!(prepared[0].fit);
        let fitted = prepared[0].completed.as_ref().unwrap();
        assert!(fitted.iter().all(|series| {
            series.points.iter().all(|(_, value)| float(*value) < 100.0)
        }));
        let trace = selected(&app);
        assert!(!trace.needs_fit);
        assert_eq!(
            (trace.view.x_min, trace.view.x_max),
            (number(1_100_000.0), number(1_900_000.0))
        );
        assert_eq!(complete_data(&app), Some(&completed_impedance()));
        assert!(trace.preview.is_some());
        if points == 0 {
            assert_eq!(trace.display_data(), Some(&completed_impedance()));
        }
    }
}

#[test]
fn double_click_fit_uses_completed_data_or_full_configured_range_not_a_prefix() {
    for completed in [false, true] {
        let mut app = active_impedance_app();
        let trace = selected_mut(&mut app);
        if !completed {
            trace.completed = None;
        }
        trace.view_locked = true;
        app.state.workspace.x_view.x_min = number(1_100_000.0);
        app.state.workspace.x_view.x_max = number(1_900_000.0);
        let pending = prefix(&app, 0, 2, 2);
        preview(&mut app, pending);
        let prepared = prepare_cartesian(&mut app.state.workspace, Language::English, &palette());
        assert_eq!(prepared[0].completed.is_some(), completed);
        let outcome = PlotOutcome {
            activated: None,
            x_view: (number(1_100_000.0), number(1_900_000.0)),
            layers: vec![LayerOutcome {
                lock: ViewLock::Unlocked,
                refit: view(),
                series: trace_series(
                    &selected(&app).settings,
                    selected(&app).display_data(),
                    Language::English,
                    &palette(),
                ),
            }],
        };
        use_cartesian(&mut app.state.workspace, &prepared, &outcome);
        let trace = selected(&app);
        assert!(!trace.view_locked);
        assert_eq!(
            (app.state.workspace.x_view.x_min, app.state.workspace.x_view.x_max),
            (number(1_000_000.0), number(2_000_000.0))
        );
        assert_eq!(
            (trace.view.x_min, trace.view.x_max),
            (number(1_000_000.0), number(2_000_000.0))
        );
    }
}

#[test]
fn spectrum_fits_completed_data_while_next_group_is_partial() {
    let mut app = active_impedance_app();
    add(&mut app, settings(TraceDisplay::Spec));
    run(&mut app);
    let event = completion(&app, 1, 2);
    apply(&mut app, event);
    let mut partial = prefix(&app, 1, 3, 2);
    for point in &mut partial.data.points {
        point.values = row(&[10_000.0]);
    }
    preview(&mut app, partial);
    let prepared = prepare_cartesian(&mut app.state.workspace, Language::English, &palette());
    assert!(prepared[1].fit);
    let fitted = prepared[1].completed.as_ref().unwrap();
    assert!(fitted[0].points.iter().all(|(_, value)| *value == number(-20.0)));
    let trace = &app.state.workspace.traces[1];
    assert!(!trace.needs_fit);
    assert!(trace
        .completed
        .as_ref()
        .unwrap()
        .data
        .points
        .iter()
        .all(|point| point.values == row(&[-20.0])));
}

#[test]
fn restored_manual_delay_view_survives_first_completed_render() {
    for locked in [false, true] {
        let mut app = active_impedance_app();
        let trace = selected_mut(&mut app);
        trace.settings.display = TraceDisplay::S21(S21Display::Delay);
        trace.view.y_min = number(-2e-18);
        trace.view.y_max = number(6e-18);
        trace.view.y_divisions = 16;
        trace.view_locked = locked;
        trace.needs_fit = !locked;
        app.state.workspace.x_view.x_min = number(1_100_000.0);
        app.state.workspace.x_view.x_max = number(1_900_000.0);
        run(&mut app);
        let event = completion(&app, 0, 1);
        apply(&mut app, event);
        let prepared = prepare_cartesian(&mut app.state.workspace, Language::English, &palette());
        assert_eq!(prepared[0].fit, !locked);
        if prepared[0].fit {
            let fitted = PlotView { y_min: number(-6e-9), y_max: number(-4e-9), ..selected(&app).view };
            take_fit(selected_mut(&mut app), fitted);
        }
        let shown = selected(&app).view;
        assert_eq!((shown.x_min, shown.x_max), (number(1_100_000.0), number(1_900_000.0)));
        assert_eq!(shown.y_divisions, 16);
        if locked {
            assert_eq!((shown.y_min, shown.y_max), (number(-2e-18), number(6e-18)));
        } else {
            assert!(float(shown.y_min) < -5e-9);
            assert!(float(shown.y_max) > -5e-9);
        }
    }
}

#[test]
fn transmission_delay_fit_preserves_a_nanosecond_range() {
    let mut app = active_impedance_app();
    selected_mut(&mut app).settings.display = TraceDisplay::S21(S21Display::Delay);
    selected_mut(&mut app).needs_fit = true;
    run(&mut app);
    let mut data = group_rows(&group_of(&app, 0), 3);
    for (point, delay) in data.points.iter_mut().zip([-5e-9, 0.0, 8e-9]) {
        point.values = row(&[delay]);
    }
    let event = completion_of(&app, 0, 1, data);
    apply(&mut app, event);
    let prepared = prepare_cartesian(&mut app.state.workspace, Language::English, &palette());
    assert!(prepared[0].fit);
    let fitted: Vec<f64> = prepared[0].completed.as_ref().unwrap()[0]
        .points
        .iter()
        .map(|(_, value)| float(*value))
        .collect();
    assert_eq!(fitted, [-5e-9, 0.0, 8e-9]);
    assert_eq!(complete_data(&app).unwrap().points[0].values, row(&[-5e-9]));
}

#[test]
fn wire_format_switch_preserves_export_but_does_not_render_old_columns() {
    let mut app = active_impedance_app();
    selected_mut(&mut app).settings.display = TraceDisplay::S11(S11Display::Phase);
    run(&mut app);
    assert!(selected(&app).completed_for_display().is_none());
    let (shown, hidden) = prepare_parameters(selected_mut(&mut app));
    assert!(shown.is_none() && hidden);
    let mut partial = prefix(&app, 0, 2, 2);
    for point in &mut partial.data.points {
        point.values = row(&[0.5, 10.0]);
    }
    preview(&mut app, partial);
    let prepared = prepare_cartesian(&mut app.state.workspace, Language::English, &palette());
    assert!(prepared[0].completed.is_none());
    assert_eq!(complete_data(&app), Some(&completed_impedance()));
    assert_eq!(selected(&app).display_data().unwrap().format, "ma");
}

#[test]
fn disconnect_clears_health_and_previews_but_keeps_completed_snapshots() {
    for lost in [false, true] {
        let mut app = active_impedance_app();
        let partial = prefix(&app, 0, 2, 2);
        preview(&mut app, partial);
        let event = if lost {
            WorkerEvent::ConnectionLost(failure("connection reset"))
        } else {
            WorkerEvent::Disconnected
        };
        app.apply_event(event, NOW);
        assert!(app.state.health.snapshot.is_none());
        assert!(!app.state.health.pending);
        assert!(selected(&app).preview.is_none());
        assert_eq!(complete_data(&app), Some(&completed_impedance()));
        assert!(matches!(app.state.sweep, SweepState::Idle));
    }
}

#[test]
fn close_is_cancelled_until_the_owned_worker_finishes() {
    let mut app = active_impedance_app();
    app.worker = true;
    let first = app.poll_close(true, false, false);
    assert!(first.iter().any(|effect| matches!(effect, UiEffect::Shutdown)));
    assert!(first.iter().any(|effect| matches!(effect, UiEffect::KeepOpen(_))));
    assert!(!first.iter().any(|effect| matches!(effect, UiEffect::CloseWindow)));
    let second = app.poll_close(true, false, false);
    assert!(!second.iter().any(|effect| matches!(effect, UiEffect::Shutdown)));
    assert!(second.iter().any(|effect| matches!(effect, UiEffect::KeepOpen(_))));
    let last = app.poll_close(false, true, false);
    assert!(last.iter().any(|effect| matches!(effect, UiEffect::JoinWorker)));
    assert!(last.iter().any(|effect| matches!(effect, UiEffect::CloseCommands)));
    assert!(last.iter().any(|effect| matches!(effect, UiEffect::CloseWindow)));
    assert!(!app.worker);
}

#[test]
fn metadata_cleanup_never_delays_dispatching_device_shutdown() {
    let mut app = active_impedance_app();
    let mut slot = Slot::default();
    app.state.desktop.lookup.ports.start(&mut slot, None).unwrap();
    app.state.desktop.lookup.ports.spawned(Ok(()));
    let first = app.poll_close(true, true, false);
    assert!(first.iter().any(|effect| matches!(effect, UiEffect::Shutdown)));
    assert!(first.iter().any(|effect| matches!(effect, UiEffect::KeepOpen(_))));
    assert!(app.state.desktop.lookup.ports.job.unwrap().cancelled);
    app.state.desktop.lookup.ports.poll(&mut slot, Some(Ending::Data(Vec::new())));
    let last = app.poll_close(false, true, false);
    assert!(last.iter().any(|effect| matches!(effect, UiEffect::CloseWindow)));
}

#[test]
fn pending_folder_launch_never_delays_device_shutdown_or_host_close() {
    let mut app = active_impedance_app();
    let first = app.poll_close(true, true, true);
    assert!(first.iter().any(|effect| matches!(effect, UiEffect::CancelFolderOpener)));
    assert!(first.iter().any(|effect| matches!(effect, UiEffect::Shutdown)));
    assert!(first.iter().any(|effect| matches!(effect, UiEffect::KeepOpen(_))));
    let last = app.poll_close(false, true, false);
    assert!(last.iter().any(|effect| matches!(effect, UiEffect::CloseWindow)));
}

#[test]
fn dropping_the_ui_cancels_all_worker_operations() {
    let mut app = active_impedance_app();
    let effects = app.dropped();
    assert!(effects.iter().any(|effect| matches!(effect, UiEffect::CancelAcquisition)));
    assert!(effects.iter().any(|effect| matches!(effect, UiEffect::CancelSession)));
    assert!(effects.iter().any(|effect| matches!(effect, UiEffect::CancelWorker)));
}

#[test]
fn connection_lifecycle_rejects_old_session_events_before_worker_acknowledgement() {
    for reconnect in [false, true] {
        let mut app = active_impedance_app();
        let old_session = app.state.session_id;
        app.clear_connection();
        app.state.session_id += 1;
        app.state.connection = ConnectionState::Disconnecting;
        if reconnect {
            app.state.session_id += 1;
            app.state.connection = ConnectionState::Connecting;
        }
        for event in [
            WorkerEvent::Connected(DeviceInfo {
                serial: "old-session".to_string(),
                username: String::new(),
                software: String::new(),
                hardware: String::new(),
                copyright: String::new(),
            }),
            WorkerEvent::Disconnected,
            WorkerEvent::Status(health(99.0, NOW)),
            WorkerEvent::StatusFailed(failure("old status error")),
            WorkerEvent::ConnectionLost(failure("old socket closed")),
        ] {
            let request_id = app.state.request_id;
            let effects = apply(&mut app, envelope(old_session, request_id, event));
            assert!(effects.is_empty());
            assert_eq!(matches!(app.state.connection, ConnectionState::Connecting), reconnect);
            assert_eq!(matches!(app.state.connection, ConnectionState::Disconnecting), !reconnect);
            assert!(app.state.device_info.is_none());
            assert!(app.state.health.snapshot.is_none());
            assert!(app.state.health.error.is_none());
            assert!(!app.state.health.pending);
            assert_eq!(app.state.request_id, request_id);
            assert!(!app.state.any_running());
            assert_eq!(complete_data(&app), Some(&completed_impedance()));
        }
    }
}

#[test]
fn connection_loss_from_an_old_request_still_invalidates_the_current_session() {
    let mut app = active_impedance_app();
    app.state.request_id = 3;
    let lost = WorkerEvent::ConnectionLost(failure("shared socket closed"));
    apply(&mut app, envelope(1, 1, lost));
    assert!(matches!(app.state.connection, ConnectionState::Error(_)));
    assert!(app.state.health.snapshot.is_none());
    assert!(!app.state.any_running());
    assert_eq!(complete_data(&app), Some(&completed_impedance()));
}

#[test]
fn health_events_follow_the_session_instead_of_the_measurement_request() {
    let mut app = active_impedance_app();
    app.state.request_id = 3;
    apply(&mut app, envelope(1, 1, WorkerEvent::Status(health(43.0, NOW))));
    assert_eq!(app.state.health.snapshot.as_ref().unwrap().temperature, number(43.0));
    assert!(app.state.any_running());
    assert_eq!(app.state.request_id, 3);
}

#[test]
fn status_failure_preserves_running_job_and_last_complete_readings() {
    let mut app = active_impedance_app();
    app.state.request_id = 3;
    app.state.status_message = Some(StatusMessage::Message(failure("An unrelated message")));
    app.state.health.pending = true;
    let original = selected(&app).completed.clone().unwrap();
    let failed = WorkerEvent::StatusFailed(failure("Status query failed: err_cmd"));
    apply(&mut app, envelope(1, 1, failed));
    assert!(app.state.any_running());
    assert!(app.state.active_plan.is_some());
    assert_eq!(app.state.health.snapshot.as_ref().unwrap().temperature, number(42.0));
    assert!(!app.state.health.pending);
    assert!(app.state.health.error.is_some());
    assert!(Arc::ptr_eq(&original, selected(&app).completed.as_ref().unwrap()));
    apply(&mut app, envelope(1, 1, WorkerEvent::Status(health(44.0, NOW))));
    assert!(app.state.health.error.is_none());
    let Some(StatusMessage::Message(message)) = &app.state.status_message else {
        panic!("the message is gone")
    };
    assert_eq!(message.text(""), "An unrelated message");
}

#[test]
fn delayed_health_event_keeps_query_age_but_starts_a_new_cooldown() {
    let mut app = active_impedance_app();
    let observed_at = NOW - 60_000_000_000;
    app.apply_event(WorkerEvent::Status(health(42.0, observed_at)), NOW);
    assert_eq!(app.state.health.snapshot.unwrap().observed_at, observed_at);
    assert_eq!(app.state.health.answered_at, Some(NOW));
}

#[test]
fn health_events_cannot_repopulate_an_inactive_current_session() {
    for connection in [
        ConnectionState::Disconnected,
        ConnectionState::Connecting,
        ConnectionState::Disconnecting,
        ConnectionState::Error(failure("connection failed")),
    ] {
        let mut app = active_impedance_app();
        app.state.connection = connection;
        app.state.health = HealthState::default();
        for event in [
            WorkerEvent::Status(health(99.0, NOW)),
            WorkerEvent::StatusFailed(failure("late status failure")),
        ] {
            let event = current(&app, event);
            apply(&mut app, event);
            assert!(app.state.health.snapshot.is_none());
            assert!(app.state.health.error.is_none());
            assert!(!app.state.health.pending);
        }
    }
}

#[test]
fn about_keeps_connection_failures_visible_and_allows_reconnect() {
    for language in LANGUAGES {
        let mut app = active_impedance_app();
        app.state.desktop.page = Page::About;
        app.state.language = language;
        app.state.target =
            ConnectionTarget::Tcp { host: "instrument.local".to_string(), port: 901 };
        let lost = WorkerEvent::ConnectionLost(failure("health query timeout"));
        app.apply_event(lost, NOW);
        assert!(app.shows_session());
        assert!(!kcsdi_gui::desktop::about_view(&app.state, false).readings);
        let Some(StatusMessage::Message(message)) = &app.state.status_message else {
            panic!("the failure is not shown")
        };
        assert_eq!(message.text(""), "health query timeout");
        app.state.connection = ConnectionState::Connecting;
        assert!(app.shows_session());
        app.apply_event(WorkerEvent::Disconnected, NOW);
        assert!(!app.shows_session());
    }
}

#[test]
fn format_changes_do_not_reinterpret_old_impedance_columns() {
    let mut data = SweepData {
        mode: StreamMode::S11,
        format: "z".to_string(),
        points: vec![SweepPoint { freq_hz: number(1e6), values: row(&[50.0, 30.0, -40.0]) }],
    };
    let draw = |display: S11Display, data: &SweepData| {
        cartesian_series(display, Some(data), [true; 3], Language::English, &palette())
    };
    let series = draw(S11Display::Impedance, &data);
    assert_eq!(series.len(), 3);
    assert_eq!(series[2].points, [(number(1e6), number(-40.0))]);
    for display in [S11Display::Phase, S11Display::ReturnLoss, S11Display::Vswr] {
        assert!(draw(display, &data).is_empty());
    }
    data.mode = StreamMode::S21;
    assert!(draw(S11Display::Impedance, &data).is_empty());
    assert!(
        cartesian_series(S11Display::Phase, None, [true; 3], Language::English, &palette())
            .is_empty()
    );
}

#[test]
fn impedance_visibility_defaults_to_all_and_survives_new_traces() {
    let mut chosen = settings(TraceDisplay::Spec);
    assert_eq!(chosen.impedance_visible, [true; 3]);
    let mut data = SweepData {
        mode: StreamMode::S11,
        format: "z".to_string(),
        points: vec![SweepPoint { freq_hz: number(100_000.0), values: row(&[50.0, 30.0, -40.0]) }],
    };
    chosen.impedance_visible = [false, true, false];
    for magnitude in [50.0, 100.0] {
        data.points[0].values[0] = number(magnitude);
        let series = cartesian_series(
            S11Display::Impedance,
            Some(&data),
            chosen.impedance_visible,
            Language::English,
            &palette(),
        );
        let shown: Vec<bool> = series.iter().map(|series| series.visible).collect();
        assert_eq!(shown, [false, true, false]);
        assert_eq!(series[0].points, [(number(100_000.0), number(magnitude))]);
        assert_eq!(series[2].points, [(number(100_000.0), number(-40.0))]);
    }
    data.format = "ma".to_string();
    let series =
        cartesian_series(S11Display::Phase, Some(&data), [false; 3], Language::English, &palette());
    assert!(series[0].visible);
}

#[test]
fn phase_and_return_loss_keep_signed_measurement_values() {
    for (display, format, values, expected) in [
        (S11Display::Phase, "ma", vec![0.5, -90.0], -90.0),
        (S11Display::ReturnLoss, "loss", vec![-3.0], -3.0),
    ] {
        let data = SweepData {
            mode: StreamMode::S11,
            format: format.to_string(),
            points: vec![SweepPoint { freq_hz: number(1e6), values: row(&values) }],
        };
        let series =
            cartesian_series(display, Some(&data), [true; 3], Language::English, &palette());
        assert_eq!(series[0].points, [(number(1e6), number(expected))]);
    }
}

#[test]
fn translating_series_changes_labels_not_measurements() {
    let data = SweepData {
        mode: StreamMode::S11,
        format: "ma".to_string(),
        points: vec![SweepPoint { freq_hz: number(1e6), values: row(&[0.5, -90.0]) }],
    };
    for language in LANGUAGES {
        let series =
            cartesian_series(S11Display::Phase, Some(&data), [true; 3], language, &palette());
        assert_eq!(series[0].name, language.text(Text::Phase));
        assert_eq!(series[0].points, [(number(1e6), number(-90.0))]);
        assert_eq!(S11Display::Phase.wire_format(), Format::Ma);
        assert_eq!(S11Display::Phase.wire_format().as_str(), "ma");
    }
}

#[test]
fn connecting_tells_the_source_page_and_asks_for_the_condition() {
    let mut app = active_impedance_app();
    app.state.connection = ConnectionState::Connecting;
    app.connection_open = true;
    let info = DeviceInfo {
        serial: "0000000001".to_string(),
        username: "bench".to_string(),
        software: "V1.6.1".to_string(),
        hardware: "V1.0".to_string(),
        copyright: String::new(),
    };
    let event = current(&app, WorkerEvent::Connected(info));
    let effects = apply(&mut app, event);
    assert!(matches!(effects[..], [UiEffect::SourceConnected, UiEffect::RefreshStatus]));
    assert!(matches!(app.state.connection, ConnectionState::Connected));
    assert!(!app.connection_open);
    assert_eq!(app.state.device_info.as_ref().unwrap().serial, "0000000001");
}

#[test]
fn settings_are_written_once_they_rest() {
    let mut app = active_impedance_app();
    assert!(!app.persist_config_debounced(true, true, NOW));
    assert_eq!(app.dirty_since, Some(NOW));
    assert!(!app.persist_config_debounced(true, false, NOW + CONFIG_SAVE_DELAY - 1));
    assert_eq!(app.dirty_since, Some(NOW));
    assert!(app.persist_config_debounced(true, false, NOW + CONFIG_SAVE_DELAY));
    assert_eq!(app.dirty_since, None);
    assert!(!app.persist_config_debounced(false, false, NOW + 2 * CONFIG_SAVE_DELAY));
    assert_eq!(app.dirty_since, None);
    // An edit that takes back the others leaves nothing to write.
    assert!(!app.persist_config_debounced(true, true, NOW));
    assert!(!app.persist_config_debounced(false, true, NOW + CONFIG_SAVE_DELAY));
    assert_eq!(app.dirty_since, None);
}

#[test]
fn a_burst_of_edits_is_written_once_after_it() {
    let mut app = active_impedance_app();
    let frame = CONFIG_SAVE_DELAY / 50;
    let mut now = NOW;
    let mut changed = false;
    let mut written = Vec::new();
    // A field is dragged for five seconds, then nothing is edited.
    for index in 0..500u128 {
        let edited = index < 250;
        changed |= edited;
        if app.persist_config_debounced(changed, edited, now) {
            written.push(now);
            changed = false;
        }
        now += frame;
    }
    let last_edit = NOW + 249 * frame;
    assert_eq!(written, [last_edit + CONFIG_SAVE_DELAY]);
    assert_eq!(app.dirty_since, None);
    // Edits that keep coming never rest.
    for seconds_of_half in [0, 1, 2, 3, 5] {
        let at = now + seconds_of_half * CONFIG_SAVE_DELAY / 2;
        assert!(!app.persist_config_debounced(true, true, at));
        assert_eq!(app.dirty_since, Some(at));
    }
}

#[test]
fn a_key_switches_the_full_screen() {
    assert_eq!(toggled_fullscreen(true, Some(false)), Some(true));
    assert_eq!(toggled_fullscreen(true, Some(true)), Some(false));
    assert_eq!(toggled_fullscreen(true, None), Some(true));
    assert_eq!(toggled_fullscreen(false, Some(true)), None);
    assert_eq!(toggled_fullscreen(false, None), None);
}

#[test]
fn frames_take_editor_results_unless_the_window_closes() {
    for closing in [false, true] {
        let mut app = active_impedance_app();
        app.closing = closing;
        app.connection_open = true;
        let results = FrameResults {
            connection_open: false,
            list: Some(vec![5_000, 10_000, 20_000]),
            run: None,
            directory: None,
        };
        app.finish_frame(results);
        assert!(!app.connection_open);
        assert_eq!(app.state.workspace.frequencies_hz.is_empty(), closing);
    }
}

#[test]
fn exit_saves_and_joins_the_worker() {
    let mut app = active_impedance_app();
    app.worker = true;
    let effects = app.on_exit();
    assert!(matches!(effects[0], UiEffect::SaveConfig));
    assert!(matches!(effects[effects.len() - 1], UiEffect::JoinWorker));
    assert!(!app.worker);
    assert!(app.events_drained(true).is_empty());
    app.worker = true;
    assert!(matches!(app.events_drained(true)[..], [UiEffect::WorkerStopped]));
    assert!(app.events_drained(false).is_empty());
    assert!(!app.begin_frame(Some(failure("no file manager")), false));
    assert!(matches!(app.state.status_message, Some(StatusMessage::Message(_))));
}

#[test]
fn charts_follow_the_visible_projections() {
    let mut app = active_impedance_app();
    assert_eq!(plot_regions(&app.state.workspace), PlotRegions::Cartesian);
    let smith = add(&mut app, settings(TraceDisplay::S11(S11Display::Smith)));
    assert_eq!(plot_regions(&app.state.workspace), PlotRegions::Both);
    app.state.workspace.traces[0].settings.visible = false;
    assert_eq!(plot_regions(&app.state.workspace), PlotRegions::Smith);
    app.state.workspace.remove_trace(smith);
    assert_eq!(plot_regions(&app.state.workspace), PlotRegions::Cartesian);
    let palette = palette();
    assert_eq!(displayed_color(palette.base[1], &palette), palette.shown[1]);
    let own = Color { r: 77, g: 7, b: 7, a: 255 };
    assert_eq!(displayed_color(own, &palette), own);
}

#[test]
fn panels_offer_what_the_state_allows() {
    assert!(can_edit(SweepState::Running, &ConnectionState::Connected));
    assert!(!can_edit(SweepState::Stopping, &ConnectionState::Connected));
    assert!(!can_edit(SweepState::Idle, &ConnectionState::Disconnecting));
    assert_eq!(visibility_text(true), Text::Hide);
    let mut app = active_impedance_app();
    assert_eq!(add_button(&app.state.workspace), (true, Text::AddTrace));
    while app.state.workspace.traces.len() < 10 {
        add(&mut app, settings(TraceDisplay::Spec));
    }
    assert_eq!(add_button(&app.state.workspace), (false, Text::TraceLimit));
    assert!(!app.instrument_view(false).can_add);
    assert_eq!(app.state.workspace.add_trace(settings(TraceDisplay::Spec), view()), None);
    assert_eq!(closing_text(true, true, true), Text::FrequencyFilePending);
    assert_eq!(closing_text(false, true, true), Text::RunFilePending);
    assert_eq!(closing_text(false, false, true), Text::ExportCancelHelp);
    assert_eq!(closing_text(false, false, false), Text::Closing);
}

#[test]
fn the_trace_editor_saves_in_place_or_creates() {
    let mut app = active_impedance_app();
    let wide = TraceSettings { line_width: Width { bits: 3.0f32.to_bits() }, ..settings(IMPEDANCE) };
    app.state.workspace.editor = Some(TraceEditor { id: Some(TraceId(1)), settings: wide });
    assert_eq!(editor_title(app.state.workspace.editor.as_ref().unwrap()), Text::TraceSettings);
    let outcome = finish_trace_editor(&mut app.state.workspace, TraceEditorAction::Continue);
    assert!(matches!(outcome, EditorOutcome::Nothing));
    assert!(app.state.workspace.editor.is_some());
    let outcome = finish_trace_editor(&mut app.state.workspace, TraceEditorAction::Save);
    assert!(matches!(
        outcome,
        EditorOutcome::Update { place: 0, settings } if settings == wide
    ));
    assert!(app.state.workspace.editor.is_none());
    app.state.workspace.editor = Some(TraceEditor { id: None, settings: wide });
    let outcome = finish_trace_editor(&mut app.state.workspace, TraceEditorAction::Save);
    assert!(matches!(outcome, EditorOutcome::Create(settings) if settings == wide));
    app.state.workspace.editor = Some(TraceEditor { id: Some(TraceId(99)), settings: wide });
    let outcome = finish_trace_editor(&mut app.state.workspace, TraceEditorAction::Save);
    assert!(matches!(outcome, EditorOutcome::Nothing));
}
