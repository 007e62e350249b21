use kcsdi_gui::acquisition::TraceId;
use kcsdi_gui::analysis_tools::Color;
use kcsdi_gui::calibration_panel::{
    affected_mode, kind_text, offered_kinds, phase_text, standard_prompts, CalibrationSource,
    CalibrationUi, FrozenCalibration, Pending, WizardAction, WizardPage,
};
use kcsdi_gui::messages::{
    ConnectionState, InstrumentFunction, Message, StatusMessage, WorkerCommand,
};
use kcsdi_gui::model::{
    Cal, CalibrationKind, CalibrationParams, CalibrationPhase, CalibrationPrompt,
    CalibrationReport, Lo, Rbw, Real, UserCalibrationParams,
};
use kcsdi_gui::text::{Language, Text};
use kcsdi_gui::workspace::{
    AppMode, PlotView, S11Display, S21Display, SweepMode, TraceDisplay, TraceSettings, TraceState,
    Width, YScale,
};

const LANGUAGES: [Language; 2] = [Language::English, Language::SimplifiedChinese];
const R3K: Rbw = Rbw { hz: 3_000 };
const R30K: Rbw = Rbw { hz: 30_000 };
const ZERO: Real = Real { bits: 0 };

fn reflection_trace() -> TraceState {
    let settings = TraceSettings {
        display: TraceDisplay::S11(S11Display::Impedance),
        cal: Cal::CalSys,
        rbw: R3K,
        lo: Lo::HighLo,
        ref_level_dbm: 0,
        visible: true,
        color: Color { r: 0, g: 0, b: 0, a: 255 },
        line_width: Width { bits: 0x3f80_0000 },
        impedance_visible: [true, true, true],
    };
    let view = PlotView {
        x_min: ZERO,
        x_max: ZERO,
        y_min: ZERO,
        y_max: ZERO,
        y_divisions: 10,
        y_scale: YScale::Linear,
    };
    TraceState::new(TraceId(1), settings, view)
}

fn source<'a>(trace: &'a TraceState) -> CalibrationSource<'a> {
    CalibrationSource {
        function: InstrumentFunction::Measurements,
        sweep_mode: SweepMode::Range,
        selected: Some(trace),
        points: 201,
        range: Ok((1_500_000, 1_000_001)),
        device: None,
    }
}

fn user(params: CalibrationParams) -> UserCalibrationParams {
    match params {
        CalibrationParams::S11User(user) | CalibrationParams::S21User(user) => user,
        other => panic!("no user parameters: {other:?}"),
    }
}

#[test]
fn user_definition_freezes_matching_selected_trace_and_rejects_lists() {
    let mut trace = reflection_trace();
    let frozen = source(&trace).freeze(CalibrationKind::S11User).unwrap();
    assert_eq!(frozen.trace_id, Some(trace.id));
    let expected =
        UserCalibrationParams { center_hz: 1_500_000, span_hz: 1_000_001, points: 201, rbw: R3K };
    assert_eq!(user(frozen.params), expected);
    assert!(source(&trace).freeze(CalibrationKind::S21User).is_err());
    trace.settings.rbw = R30K;
    let moved = CalibrationSource {
        range: Ok((6_000_000, 4_000_000)),
        points: 501,
        ..source(&trace)
    };
    let next = moved.freeze(CalibrationKind::S11User).unwrap();
    assert_eq!(user(next.params).rbw, R30K);
    assert_eq!(user(frozen.params), expected);
    for sweep_mode in [SweepMode::List, SweepMode::Segments] {
        let grid = CalibrationSource { sweep_mode, ..source(&trace) };
        assert!(grid.freeze(CalibrationKind::S11User).is_err());
        assert!(grid.freeze(CalibrationKind::S11System).is_ok());
    }
    trace.settings.display = TraceDisplay::S21(S21Display::Delay);
    trace.settings.lo = Lo::LowLo;
    let first = source(&trace).freeze(CalibrationKind::S21User).unwrap();
    trace.settings.lo = Lo::HighLo;
    trace.settings.cal = Cal::CalOff;
    trace.settings.display = TraceDisplay::S21(S21Display::Loss);
    assert_eq!(first, source(&trace).freeze(CalibrationKind::S21User).unwrap());
    let generating =
        CalibrationSource { function: InstrumentFunction::RfSource, ..source(&trace) };
    assert!(generating.freeze(CalibrationKind::S21User).is_err());
    assert!(generating.freeze(CalibrationKind::S21System).is_ok());
}

#[test]
fn every_objection_to_a_calibration_is_named() {
    let trace = reflection_trace();
    let generating =
        CalibrationSource { function: InstrumentFunction::AfSource, ..source(&trace) };
    assert!(matches!(
        generating.freeze(CalibrationKind::S11User),
        Err(StatusMessage::Text(Text::CalibrationMeasurementsOnly))
    ));
    let listed = CalibrationSource { sweep_mode: SweepMode::List, ..source(&trace) };
    assert!(matches!(
        listed.freeze(CalibrationKind::S11User),
        Err(StatusMessage::Text(Text::CalibrationContinuousOnly))
    ));
    let nothing = CalibrationSource { selected: None, ..source(&trace) };
    assert!(matches!(
        nothing.freeze(CalibrationKind::S11User),
        Err(StatusMessage::Text(Text::CalibrationSelectTrace))
    ));
    let narrow = CalibrationSource { range: Err("too narrow".to_string()), ..source(&trace) };
    let Err(StatusMessage::Message(message)) = narrow.freeze(CalibrationKind::S11User) else {
        panic!("the driver objects to the range")
    };
    assert_eq!(message.text(""), "too narrow");
    let refused = CalibrationSource { device: Some("no licence".to_string()), ..source(&trace) };
    for kind in [CalibrationKind::S11User, CalibrationKind::S21System] {
        let Err(StatusMessage::Message(message)) = refused.freeze(kind) else {
            panic!("the driver objects to the parameters")
        };
        assert_eq!(message.text(""), "no licence");
    }
}

/// Use a control as the window does, and note what was sent.
fn click(
    ui: &mut CalibrationUi,
    trace: &TraceState,
    action: WizardAction,
) -> Option<WorkerCommand> {
    let command = ui.act(action, &source(trace), &ConnectionState::Connected, false);
    if let Some(command) = &command {
        ui.sent(command);
    }
    command
}

#[test]
fn consent_and_actual_next_clicks_never_advance_without_device_packets() {
    for language in LANGUAGES {
        let trace = reflection_trace();
        let mut ui = CalibrationUi::default();
        ui.open();
        let kind = CalibrationKind::S11User;
        assert!(click(&mut ui, &trace, WizardAction::Select(kind)).is_none());
        assert!(click(&mut ui, &trace, WizardAction::Next).is_none());
        let frozen = ui.frozen.unwrap();
        assert!(click(&mut ui, &trace, WizardAction::Start).is_none());
        assert!(click(&mut ui, &trace, WizardAction::Consent(true)).is_none());
        let start = click(&mut ui, &trace, WizardAction::Start);
        assert!(matches!(
            start,
            Some(WorkerCommand::StartCalibration(params)) if params == frozen.params
        ));
        assert_eq!(ui.pending, Some(Pending::Start));
        assert_eq!(ui.report.phase, CalibrationPhase::NotStarted);
        assert_eq!(ui.label(language), language.text(Text::CalibrationStarting));
        let prompt = CalibrationPhase::Prompt(CalibrationPrompt::Short);
        ui.accept(CalibrationReport { kind: Some(kind), phase: prompt });
        let advance = click(&mut ui, &trace, WizardAction::Advance);
        assert!(matches!(
            advance,
            Some(WorkerCommand::AdvanceCalibration(CalibrationPrompt::Short))
        ));
        assert_eq!(ui.pending, Some(Pending::Advance));
        assert_eq!(ui.report.phase, prompt);
        assert!(click(&mut ui, &trace, WizardAction::Advance).is_none());
        let cancel = click(&mut ui, &trace, WizardAction::Cancel);
        assert!(matches!(cancel, Some(WorkerCommand::CancelCalibration)));
        assert!(ui.open);
        assert_eq!(ui.pending, Some(Pending::Cancel));
        ui.accept(CalibrationReport { kind: Some(kind), phase: CalibrationPhase::Cancelled });
        assert!(!ui.busy());
        assert!(click(&mut ui, &trace, WizardAction::Close).is_none());
        assert!(!ui.open);
    }
}

#[test]
fn escape_cancels_active_step_and_retains_unknown_until_explicit_new_calibration() {
    let trace = reflection_trace();
    let mut ui = CalibrationUi::default();
    ui.sent(&WorkerCommand::StartCalibration(CalibrationParams::S21System));
    ui.accept(CalibrationReport {
        kind: Some(CalibrationKind::S21System),
        phase: CalibrationPhase::Measuring,
    });
    let escape = click(&mut ui, &trace, WizardAction::Close);
    assert!(matches!(escape, Some(WorkerCommand::CancelCalibration)));
    assert!(ui.open && ui.busy());
    ui.accept(CalibrationReport { kind: None, phase: CalibrationPhase::Unknown });
    assert_eq!(ui.report.kind, Some(CalibrationKind::S21System));
    assert!(!ui.busy());
    ui.lost();
    assert_eq!(ui.report.phase, CalibrationPhase::Unknown);
    assert!(click(&mut ui, &trace, WizardAction::Advance).is_none());
    assert!(click(&mut ui, &trace, WizardAction::New).is_none());
    assert_eq!(ui.page(), WizardPage::Choose);
    assert_eq!(ui.report.phase, CalibrationPhase::NotStarted);
}

#[test]
fn only_packets_complete_steps_and_reopening_clears_write_consent() {
    let mut ui = CalibrationUi::default();
    ui.begin(CalibrationParams::S11System);
    assert_eq!(ui.completed_standards, 0);
    assert_eq!(ui.current_prompt, None);
    for (phase, completed, current) in [
        (CalibrationPhase::WarmingUp, 0, None),
        (
            CalibrationPhase::Prompt(CalibrationPrompt::Short),
            0,
            Some(CalibrationPrompt::Short),
        ),
        (CalibrationPhase::Measuring, 0, Some(CalibrationPrompt::Short)),
        (CalibrationPhase::Prompt(CalibrationPrompt::Open), 1, Some(CalibrationPrompt::Open)),
        (CalibrationPhase::Prompt(CalibrationPrompt::Load), 2, Some(CalibrationPrompt::Load)),
        (CalibrationPhase::Processing, 2, Some(CalibrationPrompt::Load)),
        (CalibrationPhase::Saving, 2, Some(CalibrationPrompt::Load)),
        (CalibrationPhase::Completed, 3, None),
    ] {
        ui.accept(CalibrationReport { kind: Some(CalibrationKind::S11System), phase });
        assert_eq!(ui.completed_standards, completed);
        assert_eq!(ui.current_prompt, current);
    }
    let mut review = CalibrationUi {
        frozen: Some(FrozenCalibration {
            params: CalibrationParams::S11System,
            trace_id: None,
        }),
        consent: true,
        ..Default::default()
    };
    review.open();
    assert!(!review.consent);
    assert_eq!(review.report.phase, CalibrationPhase::NotStarted);
}

#[test]
fn starting_needs_a_connection_and_a_quiet_source() {
    let trace = reflection_trace();
    let mut ui = CalibrationUi {
        frozen: Some(FrozenCalibration {
            params: CalibrationParams::S11System,
            trace_id: None,
        }),
        consent: true,
        open: true,
        ..Default::default()
    };
    assert_eq!(ui.page(), WizardPage::Review);
    assert_eq!(
        ui.review(&ConnectionState::Disconnected, false),
        (false, Some(Text::DeviceInfoUnavailable))
    );
    assert_eq!(
        ui.review(&ConnectionState::Connected, true),
        (false, Some(Text::CalibrationStopSource))
    );
    assert_eq!(ui.review(&ConnectionState::Connected, false), (true, None));
    let offline =
        ui.act(WizardAction::Start, &source(&trace), &ConnectionState::Disconnected, false);
    assert!(offline.is_none());
    assert!(click(&mut ui, &trace, WizardAction::Back).is_none());
    assert_eq!(ui.page(), WizardPage::Choose);
    assert!(!ui.consent);
}

#[test]
fn progress_shows_what_the_instrument_waits_for() {
    let mut ui = CalibrationUi::default();
    ui.begin(CalibrationParams::S11System);
    let report = |phase| CalibrationReport { kind: Some(CalibrationKind::S11System), phase };
    ui.accept(report(CalibrationPhase::Prompt(CalibrationPrompt::Open)));
    assert_eq!(ui.page(), WizardPage::Progress);
    let progress = ui.progress();
    assert!(!progress.spinner && progress.connect_help);
    assert_eq!(progress.next, Some((true, CalibrationPrompt::Open)));
    assert_eq!(progress.cancel, Some(true));
    let rows = ui.step_rows();
    let prompts: Vec<CalibrationPrompt> = rows.iter().map(|row| row.0).collect();
    assert_eq!(prompts, standard_prompts(CalibrationKind::S11System));
    ui.accept(report(CalibrationPhase::Completed));
    let progress = ui.progress();
    assert!(!progress.spinner);
    assert_eq!(progress.note, Some(Text::CalibrationReacquire));
    assert_eq!((progress.next, progress.cancel), (None, None));
}

#[test]
fn failed_requests_are_shown_and_leave_the_phase_unknown() {
    let mut ui = CalibrationUi::default();
    ui.open();
    ui.request_failed(&Message::CalibrationActive);
    assert!(ui.error.is_none());
    ui.sent(&WorkerCommand::StartCalibration(CalibrationParams::S11System));
    ui.request_failed(&Message::CalibrationActive);
    assert!(matches!(
        ui.error,
        Some(StatusMessage::Message(Message::CalibrationActive))
    ));
    assert_eq!(ui.pending, None);
    assert_eq!(ui.report.phase, CalibrationPhase::Unknown);
}

#[test]
fn captions_and_modes_follow_the_kind() {
    assert_eq!(affected_mode(CalibrationKind::S21User), AppMode::S21);
    assert_eq!(affected_mode(CalibrationKind::S11System), AppMode::S11);
    assert_eq!(kind_text(CalibrationKind::S21System), Text::CalibrationS21System);
    assert_eq!(phase_text(CalibrationPhase::Measuring), Text::CalibrationMeasuring);
    assert_eq!(standard_prompts(CalibrationKind::S21User), [CalibrationPrompt::Through]);
    assert_eq!(offered_kinds(InstrumentFunction::Measurements).len(), 4);
    assert_eq!(
        offered_kinds(InstrumentFunction::RfSource),
        [CalibrationKind::S11System, CalibrationKind::S21System]
    );
}
