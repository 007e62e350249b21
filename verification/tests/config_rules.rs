use kcsdi_gui::acquisition::{
    AcquisitionSettings, CompletedSweep, IntervalUnit, RecordingFormat, Retention, RunSettings,
    TraceId, MAX_TRACES,
};
use kcsdi_gui::analysis_tools::{
    AnalysisConfig, Color, Marker, MarkerTarget, OverlayVisibilityConfig,
};
use kcsdi_gui::config::{
    choose_file, config_path_with_override, display_as_str, legacy_config_version, mode_as_str,
    parse_display, parse_mode, project_name, AppConfig, ConfigFile, LegacyFacts, RangeFacts, RestoreFacts,
    RestoredTrace, SmithViewConfig, SpanFacts, Spec, StoreFacts, StoredTrace, TraceConfig,
    WireNames, WorkspaceConfig, XViewConfig, YViewConfig, CONFIG_VERSION, S11,
};
use kcsdi_gui::desktop::{
    set_language_preference, DesktopConfig, DeviceProfile, LanguagePreference, ThemeMode,
};
use kcsdi_gui::messages::{ConnectionState, InstrumentFunction, RunProgress, SweepState};
use kcsdi_gui::model::{
    Cal, CalibrationParams, CalibrationPhase, ConnectionTarget, Lo, Modulation, Rbw, Real,
    S21Params, SourceAmplitude, SourceKind, SourceOutputState, SourceParams, SourcePort,
    SourceReport, StreamMode, SweepData, SweepPoint,
};
use kcsdi_gui::state::{AfConfig, AppState, RfConfig, SourceConfig, SourcePending};
use kcsdi_gui::text::Language;
use kcsdi_gui::workspace::{
    AppMode, PlotView, S11Display, S21Display, SegmentDefinition, SmithView, SweepMode, SweepRange,
    TraceDisplay, TraceSettings, Width, Workspace, YScale,
};
use std::path::PathBuf;
use std::sync::Arc;

const R10K: Rbw = Rbw { hz: 10_000 };
const S11_DISPLAYS: [S11Display; 8] = [
    S11Display::Phase,
    S11Display::ReturnLoss,
    S11Display::Vswr,
    S11Display::Smith,
    S11Display::Impedance,
    S11Display::Magnitude,
    S11Display::Resistance,
    S11Display::Reactance,
];

fn number(value: f64) -> Real {
    Real { bits: value.to_bits() }
}

fn float(value: Real) -> f64 {
    f64::from_bits(value.bits)
}

fn span(min: f64, max: f64, divisions: usize) -> SpanFacts {
    SpanFacts {
        difference: number(max - min),
        sum: number(min + max),
        division: number((max - min) / divisions.clamp(2, 30) as f64),
        log_min: number(min.log10()),
        log_max: number(max.log10()),
    }
}

fn standard_range() -> SweepRange {
    SweepRange { start_hz: number(100e6), stop_hz: number(500e6), points: 201 }
}

fn range_facts(start: f64, stop: f64, points: u32) -> RangeFacts {
    let step = (stop - start) / f64::from(points.saturating_sub(1).max(1));
    let raised = if step > 0.0 && step < stop { step } else { stop / 10.0 };
    let positive =
        (0..points).map(|index| start + step * f64::from(index)).find(|hz| *hz > 0.0).map(number);
    let standard = standard_range();
    RangeFacts {
        start_hz: number(start),
        stop_hz: number(stop),
        span: span(start, stop, 2),
        step: number(step),
        tenth: number(stop / 10.0),
        raised: span(raised, stop, 2),
        positive,
        standard: XViewConfig { min: standard.start_hz, max: standard.stop_hz },
    }
}

fn default_y(display: TraceDisplay) -> (Real, Real) {
    let (min, max) = match display {
        TraceDisplay::Spec => (-120.0, 0.0),
        TraceDisplay::S21(S21Display::Delay) => (-1e-9, 1e-9),
        TraceDisplay::S21(_) | TraceDisplay::S11(S11Display::Phase) => (-180.0, 180.0),
        TraceDisplay::S11(S11Display::Vswr) => (1.0, 10.0),
        TraceDisplay::S11(_) => (-100.0, 100.0),
    };
    (number(min), number(max))
}

fn log_scale(display: TraceDisplay) -> Option<YScale> {
    match display {
        TraceDisplay::S11(S11Display::Impedance | S11Display::Magnitude) => {
            Some(YScale::LogImpedance)
        }
        TraceDisplay::S11(S11Display::Vswr) => Some(YScale::LogVswr),
        _ => None,
    }
}

fn floor(scale: YScale) -> Option<f64> {
    match scale {
        YScale::Linear => None,
        YScale::LogImpedance => Some(1e-3),
        YScale::LogVswr => Some(1.0),
    }
}

fn view_of(display: TraceDisplay, range: SweepRange) -> PlotView {
    let (y_min, y_max) = default_y(display);
    PlotView {
        x_min: range.start_hz,
        x_max: range.stop_hz,
        y_min,
        y_max,
        y_divisions: 8,
        y_scale: YScale::Linear,
    }
}

fn plain_view() -> PlotView {
    PlotView {
        x_min: number(0.0),
        x_max: number(1.0),
        y_min: number(0.0),
        y_max: number(1.0),
        y_divisions: 8,
        y_scale: YScale::Linear,
    }
}

fn wire_names(settings: &TraceSettings) -> WireNames {
    WireNames {
        cal: match settings.cal {
            Cal::CalOff => "caloff",
            Cal::CalOn => "calon",
            Cal::CalSys => "calsys",
            Cal::CalUser => "caluser",
        }
        .to_string(),
        rbw: format!("{}k", settings.rbw.hz / 1_000),
        lo: match settings.lo {
            Lo::HighLo => "highlo",
            Lo::LowLo => "lowlo",
        }
        .to_string(),
    }
}

fn parse_cal(name: &str) -> Option<Cal> {
    match name {
        "caloff" => Some(Cal::CalOff),
        "calon" => Some(Cal::CalOn),
        "calsys" => Some(Cal::CalSys),
        "caluser" => Some(Cal::CalUser),
        _ => None,
    }
}

fn parse_rbw(name: &str) -> Option<Rbw> {
    let hz = name.strip_suffix('k')?.parse::<u32>().ok()?;
    Some(Rbw { hz: hz * 1_000 })
}

fn parse_lo(name: &str) -> Option<Lo> {
    match name {
        "highlo" => Some(Lo::HighLo),
        "lowlo" => Some(Lo::LowLo),
        _ => None,
    }
}

fn trace_settings(display: TraceDisplay) -> TraceSettings {
    TraceSettings {
        display,
        cal: Cal::CalOff,
        rbw: R10K,
        lo: Lo::HighLo,
        ref_level_dbm: -10,
        visible: true,
        color: Color { r: 10, g: 20, b: 30, a: 255 },
        line_width: Width { bits: 1.0f32.to_bits() },
        impedance_visible: [true, true, true],
    }
}

fn store_facts(workspace: &Workspace) -> StoreFacts {
    let range = workspace.range;
    StoreFacts {
        x: span(float(workspace.x_view.x_min), float(workspace.x_view.x_max), 2),
        range: range_facts(float(range.start_hz), float(range.stop_hz), range.points),
        traces: workspace
            .traces
            .iter()
            .map(|trace| StoredTrace {
                names: wire_names(&trace.settings),
                y: span(
                    float(trace.view.y_min),
                    float(trace.view.y_max),
                    trace.view.y_divisions,
                ),
                default_y: default_y(trace.settings.display),
            })
            .collect(),
    }
}

fn restored_trace(trace: &TraceConfig, range: SweepRange) -> RestoredTrace {
    let mut facts = RestoredTrace {
        cal: parse_cal(&trace.cal),
        rbw: parse_rbw(&trace.rbw),
        lo: parse_lo(&trace.lo),
        view: plain_view(),
        fallback: (number(0.0), number(1.0)),
        log_scale: None,
        floor: None,
        y: span(0.0, 1.0, 8),
    };
    let display = trace.settings(&facts).display;
    facts.view = view_of(display, range);
    facts.fallback = default_y(display);
    facts.log_scale = log_scale(display);
    if let Some(view) = trace.y_view {
        facts.y = span(float(view.min), float(view.max), view.divisions);
        if let (true, Some(scale)) = (view.log_y, facts.log_scale) {
            facts.floor = floor(scale).map(number);
            facts.fallback = (number(floor(scale).unwrap()), number(1e3));
        }
    }
    facts
}

fn restore_facts(config: &WorkspaceConfig) -> RestoreFacts {
    let range = SweepRange {
        start_hz: config.start_hz,
        stop_hz: config.stop_hz,
        points: config.points,
    };
    let shown = config.x_view.unwrap_or(XViewConfig { min: number(0.0), max: number(0.0) });
    RestoreFacts {
        x: span(float(shown.min), float(shown.max), 2),
        range: range_facts(float(config.start_hz), float(config.stop_hz), config.points),
        plain_view: plain_view(),
        traces: config.traces.iter().map(|trace| restored_trace(trace, range)).collect(),
    }
}

fn legacy_facts(config: &AppConfig) -> LegacyFacts {
    let reflection = parse_mode(&config.mode) == AppMode::S11;
    let (start, stop, points) = if reflection {
        (config.s11.start_hz, config.s11.stop_hz, config.s11.points)
    } else {
        (config.spec.start_hz, config.spec.stop_hz, config.spec.points)
    };
    let range = SweepRange { start_hz: start, stop_hz: stop, points };
    let s11_display = TraceDisplay::S11(parse_display(&config.s11.display));
    let spec_rbw = parse_rbw(&config.spec.rbw);
    let s11_cal = parse_cal(&config.s11.cal);
    let s11_rbw = config.s11.rbw.as_deref().and_then(parse_rbw);
    let x_view = PlotView { x_min: start, x_max: stop, ..plain_view() };
    let facts = range_facts(float(start), float(stop), points);
    let stored = |display: TraceDisplay, cal: Cal, rbw: Rbw| {
        let (min, max) = default_y(display);
        StoredTrace {
            names: wire_names(&TraceSettings { cal, rbw, ..trace_settings(display) }),
            y: span(float(min), float(max), 8),
            default_y: (min, max),
        }
    };
    let restored = |display: TraceDisplay, cal: Cal, rbw: Rbw| {
        let (min, max) = default_y(display);
        RestoredTrace {
            cal: Some(cal),
            rbw: Some(rbw),
            lo: Some(Lo::HighLo),
            view: view_of(display, range),
            fallback: (min, max),
            log_scale: log_scale(display),
            floor: None,
            y: span(float(min), float(max), 8),
        }
    };
    let cal = s11_cal.unwrap_or(Cal::CalOff);
    let rbw = s11_rbw.unwrap_or(R10K);
    LegacyFacts {
        spec_rbw,
        s11_cal,
        s11_rbw,
        defaults: trace_settings(TraceDisplay::Spec),
        second_color: Color { r: 200, g: 20, b: 30, a: 255 },
        spec_view: view_of(TraceDisplay::Spec, range),
        s11_view: view_of(s11_display, range),
        x_view,
        smith: SmithView { zoom: number(1.0), dx: number(0.0), dy: number(0.0) },
        store: StoreFacts {
            x: span(float(start), float(stop), 2),
            range: facts,
            traces: vec![
                stored(TraceDisplay::Spec, Cal::CalOff, spec_rbw.unwrap_or(R10K)),
                stored(s11_display, cal, rbw),
            ],
        },
        restore: RestoreFacts {
            x: span(float(start), float(stop), 2),
            range: facts,
            plain_view: plain_view(),
            traces: vec![
                restored(TraceDisplay::Spec, Cal::CalOff, spec_rbw.unwrap_or(R10K)),
                restored(s11_display, cal, rbw),
            ],
        },
    }
}

fn sources() -> SourceConfig {
    SourceConfig {
        rf: RfConfig { frequency_hz: 1_000_000_000, modulation: "off".to_string() },
        af: AfConfig {
            frequency_hz: 1_000,
            amplitude_mv: 100,
            modulation: "off".to_string(),
            pm_phase_deg: 0,
        },
    }
}

fn fresh_workspace() -> Workspace {
    let range = standard_range();
    let x_view = PlotView { x_min: range.start_hz, x_max: range.stop_hz, ..plain_view() };
    let smith = SmithView { zoom: number(1.0), dx: number(0.0), dy: number(0.0) };
    let mut workspace = Workspace::empty(range, x_view, smith);
    add(&mut workspace, trace_settings(TraceDisplay::Spec));
    workspace
}

fn add(workspace: &mut Workspace, settings: TraceSettings) -> TraceId {
    let view = view_of(settings.display, workspace.range);
    workspace.add_trace(settings, view).unwrap()
}

fn fresh() -> AppState {
    AppState::new(fresh_workspace(), Language::English, sources())
}

fn store(state: &AppState) -> AppConfig {
    AppConfig::from_state(state, &store_facts(&state.workspace))
}

fn apply(config: &AppConfig, state: &mut AppState) {
    let facts = restore_facts(&config.workspace);
    config.apply_to(state, Language::English, &facts, &legacy_facts(config));
}

fn restart(config: &AppConfig) -> AppState {
    let mut state = fresh();
    apply(config, &mut state);
    state
}

fn standard() -> AppConfig {
    store(&fresh())
}

fn workspace_config() -> WorkspaceConfig {
    standard().workspace
}

fn trace_config(display: &str) -> TraceConfig {
    let settings = trace_settings(TraceDisplay::Spec);
    let names = wire_names(&settings);
    let mut config = TraceConfig::from_settings(TraceId(1), &settings, &names);
    config.display = display.to_string();
    config
}

fn restore(config: &WorkspaceConfig) -> Workspace {
    config.restore(&restore_facts(config))
}

fn tcp(host: &str, port: u16) -> ConnectionTarget {
    ConnectionTarget::Tcp { host: host.to_string(), port }
}

#[test]
fn version_three_keeps_workspace_identity_and_uses_its_range_for_missing_views() {
    let mut trace = trace_config("s21_delay");
    trace.id = TraceId(55);
    trace.visible = false;
    let config = AppConfig {
        version: 3,
        workspace: WorkspaceConfig {
            start_hz: number(2e6),
            stop_hz: number(9e6),
            points: 101,
            selected: Some(TraceId(55)),
            next_id: 88,
            traces: vec![trace],
            x_view: None,
            smith_view: None,
            ..workspace_config()
        },
        ..standard()
    };
    let state = restart(&config);
    assert_eq!(state.workspace.traces.len(), 1);
    assert_eq!(state.workspace.selected, Some(TraceId(55)));
    assert_eq!(state.workspace.next_id, 88);
    assert!(!state.workspace.traces[0].settings.visible);
    assert_eq!(
        (state.workspace.x_view.x_min, state.workspace.x_view.x_max),
        (number(2e6), number(9e6))
    );
    let trace = &state.workspace.traces[0];
    assert_eq!(
        (trace.view.y_min, trace.view.y_max),
        default_y(TraceDisplay::S21(S21Display::Delay))
    );
    assert!(!trace.view_locked);
    assert!(trace.needs_fit);
    assert!(matches!(state.connection, ConnectionState::Disconnected));
    assert!(matches!(state.sweep, SweepState::Idle));
    assert!(state.legacy_sweeps.is_none());
    assert!(state.desktop.settings.profiles.is_empty());
    let saved = store(&state);
    assert_eq!(saved.version, CONFIG_VERSION);
    assert!(saved.workspace.x_view.is_some());
    assert!(saved.workspace.traces[0].analysis.is_some());
}

fn delay_snapshot(session_id: u64, first: f64) -> CompletedSweep {
    CompletedSweep {
        data: SweepData {
            mode: StreamMode::S21,
            format: "delay".to_string(),
            points: (0..3)
                .map(|index| SweepPoint {
                    freq_hz: number(1e6 + f64::from(index) * 0.5e6),
                    values: vec![number(if index == 0 { first } else { f64::from(index) * 1e-12 })],
                })
                .collect(),
        },
        segments: None,
        settings: AcquisitionSettings::S21(S21Params {
            cal: Cal::CalOff,
            format: S21Display::Delay.wire_format(),
            lo: Lo::HighLo,
            points: 3,
            start_hz: 1_000_000,
            stop_hz: 2_000_000,
            rbw: Some(R10K),
        }),
        session_id,
        completed_at: 0,
    }
}

fn no_distances(markers: usize) -> Vec<Vec<Real>> {
    vec![vec![number(0.0), number(1.0), number(2.0)]; markers]
}

#[test]
fn analysis_and_views_round_trip_without_acquired_rows_or_running_state() {
    let mut state = fresh();
    state.workspace = {
        let range = SweepRange { start_hz: number(1e6), stop_hz: number(2e6), points: 3 };
        let x_view = PlotView { x_min: number(1.1e6), x_max: number(1.9e6), ..plain_view() };
        let smith = SmithView { zoom: number(2.5), dx: number(-0.12), dy: number(0.27) };
        let mut workspace = Workspace::empty(range, x_view, smith);
        workspace.log_x = true;
        add(&mut workspace, trace_settings(TraceDisplay::S21(S21Display::Delay)));
        workspace
    };
    let trace = &mut state.workspace.traces[0];
    trace.view.y_min = number(-7.123456e-12);
    trace.view.y_max = number(8.234567e-12);
    trace.view.y_divisions = 6;
    trace.view_locked = true;
    let marker = |id: u32, hz: f64, selected: bool, reference: bool| Marker {
        id,
        frequency_hz: number(hz),
        selected,
        reference,
        auto_peak: false,
    };
    trace.analysis.restore_config(&AnalysisConfig {
        markers: vec![marker(7, 1e6, false, true), marker(9, 2e6, true, false)],
        next_id: 15,
        hold: true,
        max_hold: true,
        min_hold: true,
        target: MarkerTarget::Hold,
        overlay_visibility: vec![OverlayVisibilityConfig {
            format: "delay".to_string(),
            kind: 1,
            column: 0,
            visible: false,
        }],
        ..Default::default()
    });
    let snapshot = Arc::new(delay_snapshot(812, 0.0));
    let distances = vec![
        vec![number(0.0), number(0.5e6), number(1e6)],
        vec![number(1e6), number(0.5e6), number(0.0)],
    ];
    trace.analysis.observe(&snapshot, &distances);
    assert!(trace.analysis.held_trace().is_some());
    trace.completed = Some(snapshot);
    trace.last_completed_cycle = Some(91);
    let expected_analysis = trace.analysis.config();
    let expected_y = trace.view;
    state.sweep = SweepState::Running;
    state.session_id = 812;
    state.request_id = 51;
    let before = store(&state);
    let mut restored = restart(&before);
    assert_eq!(store(&restored), before);
    assert_eq!(restored.workspace.x_view, state.workspace.x_view);
    assert_eq!(restored.workspace.smith, state.workspace.smith);
    assert!(matches!(restored.connection, ConnectionState::Disconnected));
    assert!(matches!(restored.sweep, SweepState::Idle));
    assert!(restored.active_plan.is_none());
    assert_eq!((restored.session_id, restored.request_id), (0, 0));
    let trace = &mut restored.workspace.traces[0];
    assert_eq!(
        (trace.view.y_min, trace.view.y_max, trace.view.y_divisions),
        (expected_y.y_min, expected_y.y_max, expected_y.y_divisions)
    );
    assert!(trace.view_locked);
    assert!(!trace.needs_fit);
    assert!(trace.completed.is_none());
    assert!(trace.preview.is_none());
    assert!(trace.last_completed_cycle.is_none());
    assert_eq!(trace.analysis.config(), expected_analysis);
    assert!(trace.analysis.held_trace().is_none());
    assert!(trace.analysis.marker_trace().is_none());
    assert!(trace.analysis.overlay_series(&vec![0]).is_empty());
    trace.analysis.observe(&Arc::new(delay_snapshot(1, 9.876543e-12)), &no_distances(2));
    assert_eq!(
        trace.analysis.held_trace().unwrap().points[0].values[0],
        number(9.876543e-12)
    );
    assert_eq!((trace.view.y_min, trace.view.y_max), (expected_y.y_min, expected_y.y_max));
}

#[test]
fn invalid_views_fall_back_without_rewriting_invalid_acquisition_fields() {
    for (min, max) in [
        (f64::NAN, 1.0),
        (0.0, f64::INFINITY),
        (3.0, 3.0),
        (2.0, 1.0),
        (-f64::MAX, f64::MAX),
    ] {
        let mut trace = trace_config("s21_delay");
        trace.y_view = Some(YViewConfig {
            min: number(min),
            max: number(max),
            divisions: 0,
            locked: true,
            log_y: false,
        });
        let config = WorkspaceConfig {
            start_hz: number(-10.0),
            stop_hz: number(-20.0),
            x_view: Some(XViewConfig { min: number(min), max: number(max) }),
            traces: vec![trace],
            ..workspace_config()
        };
        let restored = restore(&config);
        assert_eq!(
            (restored.range.start_hz, restored.range.stop_hz),
            (number(-10.0), number(-20.0))
        );
        let shown = (float(restored.x_view.x_min), float(restored.x_view.x_max));
        assert!(shown.0 < shown.1 && (shown.1 - shown.0).is_finite());
        let trace = &restored.traces[0];
        assert_eq!(
            (trace.view.y_min, trace.view.y_max),
            default_y(TraceDisplay::S21(S21Display::Delay))
        );
        assert_eq!(trace.view.y_divisions, 2);
        assert!(!trace.view_locked);
        assert!(trace.needs_fit);
    }
}

#[test]
fn tiny_delay_views_and_unlocked_views_keep_their_fit_policy() {
    for locked in [false, true] {
        let view = YViewConfig {
            min: number(-3e-18),
            max: number(5e-18),
            divisions: usize::MAX,
            locked,
            log_y: false,
        };
        let mut trace = trace_config("s21_delay");
        trace.y_view = Some(view);
        let restored = restore(&WorkspaceConfig { traces: vec![trace], ..workspace_config() });
        let trace = &restored.traces[0];
        assert_eq!((trace.view.y_min, trace.view.y_max), (view.min, view.max));
        assert_eq!(trace.view.y_divisions, 30);
        assert_eq!(trace.view_locked, locked);
        assert_eq!(trace.needs_fit, !locked);
    }
}

#[test]
fn log_y_views_round_trip_and_reject_incompatible_units_and_bounds() {
    for display in S11_DISPLAYS {
        let mut state = fresh();
        state.workspace = fresh_workspace();
        state.workspace.remove_trace(TraceId(1));
        add(&mut state.workspace, trace_settings(TraceDisplay::S11(display)));
        let trace = &mut state.workspace.traces[0];
        if let Some(scale) = log_scale(trace.settings.display) {
            trace.view.y_scale = scale;
            trace.view.y_min = number(floor(scale).unwrap());
            trace.view.y_max = number(1e3);
            trace.view_locked = true;
        }
        let view = trace.view;
        let restored = restart(&store(&state));
        assert_eq!(restored.workspace.traces[0].view, view);
    }
    for (display, min, max, expected) in [
        ("impedance", -1.0, 1.0, YScale::LogImpedance),
        ("vswr", 1e-3, 100.0, YScale::LogVswr),
        ("s21_delay", -1e-9, 1e-9, YScale::Linear),
        ("spec", -100.0, 0.0, YScale::Linear),
    ] {
        let mut trace = trace_config(display);
        trace.y_view = Some(YViewConfig {
            min: number(min),
            max: number(max),
            locked: true,
            log_y: true,
            ..Default::default()
        });
        let restored = restore(&WorkspaceConfig { traces: vec![trace], ..workspace_config() });
        let trace = &restored.traces[0];
        assert_eq!(trace.view.y_scale, expected);
        let (y_min, y_max) = (float(trace.view.y_min), float(trace.view.y_max));
        if let Some(floor) = floor(expected) {
            assert!(y_min >= floor && y_max > y_min);
            assert!(!trace.view_locked && trace.needs_fit);
        } else {
            assert_eq!((y_min, y_max), (min, max));
        }
    }
}

#[test]
fn log_view_recovery_keeps_the_configured_full_stop_and_accepts_linear_pan() {
    let config = |log_x: bool| WorkspaceConfig {
        start_hz: number(0.0),
        stop_hz: number(1e6),
        points: 201,
        log_x,
        x_view: Some(XViewConfig { min: number(-1e6), max: number(0.0) }),
        ..workspace_config()
    };
    let restored = restore(&config(true));
    assert_eq!(
        (restored.x_view.x_min, restored.x_view.x_max),
        (number(5e3), number(1e6))
    );
    assert_eq!(restored.range.start_hz, number(0.0));
    let linear = restore(&config(false));
    assert_eq!((linear.x_view.x_min, linear.x_view.x_max), (number(-1e6), number(0.0)));
    let next = f64::from_bits(1e300_f64.to_bits() + 1);
    let narrow = XViewConfig { min: number(1e300), max: number(next) };
    assert!(!narrow.valid(true, &span(1e300, next, 2)));
    assert!(narrow.valid(false, &span(1e300, next, 2)));
}

#[test]
fn smith_view_normalizes_nonfinite_and_overflowing_coordinates() {
    let view = |zoom: f64, dx: f64, dy: f64| SmithView {
        zoom: number(zoom),
        dx: number(dx),
        dy: number(dy),
    };
    let config = |zoom: f64, dx: f64, dy: f64| SmithViewConfig {
        zoom: number(zoom),
        dx: number(dx),
        dy: number(dy),
    };
    assert_eq!(config(f64::NAN, f64::INFINITY, 1e300).restore(), view(1.0, 0.0, 0.0));
    assert_eq!(config(0.01, -0.7, 0.3).restore(), view(0.2, -0.7, 0.3));
    assert_eq!(
        SmithViewConfig { zoom: number(1000.0), ..Default::default() }.restore().zoom,
        number(200.0)
    );
    let limit = f64::from(f32::MAX) / (200.0 * 1_000_000.0);
    assert_eq!(config(1.0, -limit, limit).restore(), view(1.0, -limit, limit));
    let beyond = f64::from_bits(limit.to_bits() + 1);
    assert_eq!(config(1.0, -beyond, beyond).restore(), view(1.0, 0.0, 0.0));
}

#[test]
fn restored_analysis_cannot_override_projection_columns_or_smith_restrictions() {
    let analysis = AnalysisConfig {
        markers: vec![Marker {
            id: 8,
            frequency_hz: number(1e6),
            selected: true,
            reference: true,
            auto_peak: true,
        }],
        column: 2,
        target: MarkerTarget::Maximum,
        ..Default::default()
    };
    let mut phase = trace_config("s21_phase");
    phase.analysis = Some(analysis.clone());
    let mut smith = trace_config("smith");
    smith.id = TraceId(2);
    smith.analysis = Some(analysis);
    let restored =
        restore(&WorkspaceConfig { traces: vec![phase, smith], ..workspace_config() });
    assert_eq!(restored.traces[0].analysis.config().column, 1);
    let smith = restored.traces[1].analysis.config();
    assert_eq!(smith.target, MarkerTarget::Current);
    assert!(!smith.markers[0].reference);
    assert!(!smith.markers[0].auto_peak);
}

#[test]
fn transmission_definitions_round_trip_without_reusing_s11_keys() {
    let mut state = fresh();
    for display in [S21Display::Phase, S21Display::Loss, S21Display::Delay] {
        add(
            &mut state.workspace,
            TraceSettings {
                cal: Cal::CalUser,
                lo: Lo::LowLo,
                rbw: Rbw { hz: 3_000 },
                ..trace_settings(TraceDisplay::S21(display))
            },
        );
    }
    state.sweep = SweepState::Running;
    let before = store(&state);
    let names: Vec<&str> =
        before.workspace.traces.iter().map(|trace| trace.display.as_str()).collect();
    assert_eq!(names, ["spec", "s21_phase", "s21_loss", "s21_delay"]);
    let restored = restart(&before);
    assert!(matches!(restored.sweep, SweepState::Idle));
    assert!(restored.active_plan.is_none());
    assert_eq!(restored.workspace.selected, state.workspace.selected);
    for (original, again) in state.workspace.traces.iter().zip(&restored.workspace.traces) {
        assert_eq!((original.id, original.settings), (again.id, again.settings));
    }
    assert_eq!(store(&restored), before);
}

#[test]
fn default_roundtrip() {
    let config = standard();
    assert_eq!(store(&restart(&config)), config);
    assert_eq!(config.version, CONFIG_VERSION);
    assert_eq!(config.spec, Spec::default());
    assert_eq!(config.s11, S11::default());
    assert_eq!(config.mode, "spec");
}

#[test]
fn legacy_tcp_and_tagged_serial_profiles_share_one_config() {
    let serial = || ConnectionTarget::Serial { path: "/dev/serial/by-id/unavailable".to_string() };
    let config = AppConfig {
        version: 7,
        language: LanguagePreference::SimplifiedChinese,
        connection: tcp("instrument.local", 4321),
        desktop: DesktopConfig {
            profiles: vec![
                DeviceProfile {
                    name: "TCP bench".to_string(),
                    target: tcp("instrument.local", 4321),
                },
                DeviceProfile { name: "USB bench".to_string(), target: serial() },
            ],
            theme: ThemeMode::System,
        },
        ..standard()
    };
    let mut state = restart(&config);
    assert_eq!(state.target, tcp("instrument.local", 4321));
    assert_eq!(state.desktop.settings.profiles.len(), 2);
    assert_eq!(state.desktop.settings.profiles[1].target, serial());
    state.target = serial();
    let restarted = restart(&store(&state));
    assert_eq!(restarted.target, serial());
    assert_eq!(restarted.desktop.settings, state.desktop.settings);
    assert!(matches!(restarted.connection, ConnectionState::Disconnected));
    assert!(!restarted.desktop.lookup.is_pending());
    assert!(!restarted.any_running());
    assert!(restarted.source.pending.is_none());
    assert!(!restarted.calibration.busy());
}

#[test]
fn version_nine_range_and_list_modes_migrate_without_changing_their_grids() {
    for list in [false, true] {
        let config = AppConfig {
            version: 9,
            workspace: WorkspaceConfig {
                list_mode: list,
                sweep_mode: None,
                frequencies_hz: vec![5000, 10000, 1000000],
                start_hz: number(1000000.0),
                stop_hz: number(3000000.0),
                points: 201,
                ..workspace_config()
            },
            ..standard()
        };
        let state = restart(&config);
        let expected = if list { SweepMode::List } else { SweepMode::Range };
        assert_eq!(state.workspace.sweep_mode, expected);
        assert_eq!(state.workspace.frequencies_hz, [5000, 10000, 1000000]);
        assert_eq!(
            state.workspace.range,
            SweepRange { start_hz: number(1e6), stop_hz: number(3e6), points: 201 }
        );
        assert!(!state.any_running());
        let saved = store(&state);
        assert!(!saved.workspace.list_mode);
        assert_eq!(saved.workspace.sweep_mode, Some(expected));
    }
}

#[test]
fn segmented_config_keeps_inactive_grids_views_and_invalid_plans_without_running() {
    let segment = |start_hz, stop_hz| SegmentDefinition {
        start_hz,
        stop_hz,
        max_step_hz: 1_000_000,
    };
    let mut state = fresh();
    state.workspace.sweep_mode = SweepMode::Segments;
    state.workspace.segments = vec![segment(10_000_000, 30_000_000), segment(50_000_000, 70_000_000)];
    state.workspace.frequencies_hz = vec![5000, 5000, 10000];
    state.workspace.x_view.x_min = number(10e6);
    state.workspace.x_view.x_max = number(70e6);
    let mut config = store(&state);
    let mut restarted = restart(&config);
    assert_eq!(restarted.workspace.segments, state.workspace.segments);
    assert_eq!(restarted.workspace.frequencies_hz, state.workspace.frequencies_hz);
    assert_eq!(restarted.workspace.range, state.workspace.range);
    assert_eq!(restarted.workspace.x_view.x_min, number(10e6));
    assert_eq!(restarted.workspace.x_view.x_max, number(70e6));
    assert!(!restarted.any_running());
    assert!(restarted.workspace.traces.iter().all(|trace| trace.completed.is_none()));
    for (invalid, kept) in [
        (Vec::new(), 0),
        (vec![SegmentDefinition { start_hz: 0, stop_hz: 1, max_step_hz: 0 }], 1),
        (vec![segment(10_000_000, 30_000_000); 33], 0),
    ] {
        config.workspace.segments = invalid;
        apply(&config, &mut restarted);
        assert_eq!(restarted.workspace.sweep_mode, SweepMode::Segments);
        assert_eq!(restarted.workspace.segments.len(), kept);
        assert!(!restarted.any_running());
    }
}

#[test]
fn legacy_connection_becomes_one_profile_without_changing_sweeps() {
    let config = AppConfig {
        version: legacy_config_version(),
        mode: "s11".to_string(),
        connection: tcp(" bench.example.invalid ", 4321),
        s11: S11 { points: 401, ..Default::default() },
        ..standard()
    };
    let state = restart(&config);
    assert_eq!(
        state.desktop.settings.profiles,
        [DeviceProfile {
            name: "bench.example.invalid".to_string(),
            target: tcp("bench.example.invalid", 4321),
        }]
    );
    assert_eq!(state.workspace.range.points, 401);
    assert_eq!(state.workspace.selected, Some(TraceId(2)));
    assert_eq!(state.workspace.traces[1].settings.display.mode(), AppMode::S11);
    assert_eq!(state.workspace.traces.len(), 2);
    assert!(!state.workspace.traces[0].settings.visible);
    assert!(state.workspace.traces[1].settings.visible);
    let saved = store(&state);
    assert_eq!(saved.version, CONFIG_VERSION);
    let restored = restart(&saved);
    assert_eq!(restored.desktop.settings.profiles, state.desktop.settings.profiles);
}

#[test]
fn deleting_all_profiles_does_not_reimport_last_connection() {
    let config = AppConfig {
        version: legacy_config_version(),
        connection: tcp("bench.example.invalid", 901),
        ..standard()
    };
    let mut state = restart(&config);
    assert_eq!(state.desktop.settings.profiles.len(), 1);
    state.desktop.settings.profiles.clear();
    let restored = restart(&store(&state));
    assert!(restored.desktop.settings.profiles.is_empty());
    assert_eq!(restored.target, tcp("bench.example.invalid", 901));
}

#[test]
fn profiles_and_theme_roundtrip_in_the_existing_config_file() {
    let mut config = standard();
    config.desktop.profiles = vec![DeviceProfile {
        name: "Bench A".to_string(),
        target: tcp("analyzer.example.invalid", 901),
    }];
    config.desktop.theme = ThemeMode::Light;
    assert_eq!(store(&restart(&config)), config);
}

#[test]
fn system_preference_is_saved_instead_of_the_resolved_language() {
    for language in [Language::English, Language::SimplifiedChinese] {
        let state = AppState::new(fresh_workspace(), language, sources());
        assert_eq!(store(&state).language, LanguagePreference::System);
    }
}

#[test]
fn partial_file_uses_defaults() {
    let config = AppConfig { connection: tcp("example.invalid", 901), ..standard() };
    assert_eq!(config.spec.points, 201);
    assert_eq!(config.spec.start_hz, number(100e6));
    assert_eq!(config.spec.stop_hz, number(500e6));
    assert_eq!(config.mode, "spec");
    assert_eq!(config.s11.start_hz, number(1e6));
    assert_eq!(config.s11.stop_hz, number(1000e6));
    assert_eq!(config.s11.points, 201);
    assert_eq!(config.s11.cal, "caloff");
    assert_eq!(config.s11.display, "return_loss");
    assert!(!config.s11.log_x);
    assert_eq!(config.s11.rbw, None);
}

#[test]
fn s11_fields_roundtrip() {
    let config = AppConfig {
        version: 1,
        mode: "s11".to_string(),
        s11: S11 {
            start_hz: number(2e6),
            stop_hz: number(900e6),
            points: 401,
            cal: "calon".to_string(),
            display: "smith".to_string(),
            log_x: true,
            rbw: Some("30k".to_string()),
        },
        ..standard()
    };
    let state = restart(&config);
    let selected = state.workspace.traces[1].settings;
    assert_eq!(state.workspace.selected, Some(TraceId(2)));
    assert_eq!(selected.display, TraceDisplay::S11(S11Display::Smith));
    assert_eq!((selected.cal, selected.rbw), (Cal::CalOn, Rbw { hz: 30_000 }));
    let restored = restart(&store(&state));
    assert_eq!(restored.workspace.range, state.workspace.range);
    assert_eq!(restored.workspace.traces[1].settings, selected);
    assert!(restored.workspace.log_x);
}

#[test]
fn env_override_wins() {
    assert_eq!(
        config_path_with_override(Some("test-config.toml")),
        Some(ConfigFile::Named("test-config.toml".to_string()))
    );
    assert_eq!(config_path_with_override(Some("")), config_path_with_override(None));
    if let Some(ConfigFile::InDirectory(directory)) = config_path_with_override(None) {
        assert!(directory.to_string_lossy().contains("kcsdi"));
    }
    let home = PathBuf::from("settings");
    assert_eq!(
        choose_file(None, Some(home.clone())),
        Some(ConfigFile::InDirectory(home))
    );
    assert_eq!(choose_file(Some(""), None), None);
}

#[test]
fn state_roundtrip() {
    let mut state = fresh();
    set_language_preference(
        &mut state,
        LanguagePreference::SimplifiedChinese,
        Language::English,
    );
    state.target = tcp("analyzer.example.invalid", 5025);
    state.workspace.range =
        SweepRange { start_hz: number(10e6), stop_hz: number(400e6), points: 101 };
    state.workspace.log_x = true;
    add(
        &mut state.workspace,
        TraceSettings {
            cal: Cal::CalUser,
            rbw: Rbw { hz: 1_000 },
            line_width: Width { bits: 2.5f32.to_bits() },
            color: Color { r: 255, g: 0, b: 0, a: 255 },
            impedance_visible: [false, true, false],
            ..trace_settings(TraceDisplay::S11(S11Display::Vswr))
        },
    );
    state.workspace.traces[0].settings.lo = Lo::LowLo;
    state.workspace.traces[0].settings.visible = false;
    state.sweep = SweepState::Running;
    let restored = restart(&store(&state));
    assert_eq!(restored.language, Language::SimplifiedChinese);
    assert_eq!(restored.language_preference, LanguagePreference::SimplifiedChinese);
    assert_eq!(restored.target, tcp("analyzer.example.invalid", 5025));
    assert_eq!(restored.workspace.range, state.workspace.range);
    assert!(restored.workspace.log_x);
    assert_eq!(restored.workspace.selected, state.workspace.selected);
    assert_eq!(restored.workspace.next_id, state.workspace.next_id);
    assert_eq!(restored.workspace.traces.len(), 2);
    for (original, again) in state.workspace.traces.iter().zip(&restored.workspace.traces) {
        assert_eq!(original.id, again.id);
        assert_eq!(original.settings, again.settings);
        assert!(again.completed.is_none());
        assert!(again.preview.is_none());
    }
    assert!(matches!(restored.sweep, SweepState::Idle));
    assert!(restored.active_plan.is_none());
}

#[test]
fn legacy_y_log_setting_does_not_enable_frequency_log() {
    let config = AppConfig { version: legacy_config_version(), ..standard() };
    assert!(!config.spec.log_x);
    assert!(!config.s11.log_x);
    let upgraded = store(&restart(&config));
    assert!(upgraded
        .workspace
        .traces
        .iter()
        .all(|trace| trace.y_view.is_none_or(|view| !view.log_y)));
    assert_eq!(store(&restart(&upgraded)), upgraded);
}

#[test]
fn recording_settings_round_trip_without_resuming_the_run() {
    let mut state = fresh();
    state.workspace.run.interval_ms = 120_000;
    state.workspace.run.interval_unit = IntervalUnit::Minutes;
    state.workspace.run.recording.enabled = true;
    state.workspace.run.recording.directory = "/tmp/recordings".to_string();
    state.workspace.run.recording.format = RecordingFormat::Csv;
    state.workspace.run.recording.retention = Retention::KeepLast(3);
    state.sweep = SweepState::Running;
    state.run_progress = Some(RunProgress::Saving);
    state.last_recording = Some((7, "/tmp/recordings/old.csv".to_string()));
    let restored = restart(&store(&state));
    assert_eq!(restored.workspace.run, state.workspace.run);
    assert!(matches!(restored.connection, ConnectionState::Disconnected));
    assert!(matches!(restored.sweep, SweepState::Idle));
    assert!(restored.active_plan.is_none());
    assert!(restored.run_progress.is_none());
    assert!(restored.last_recording.is_none());
}

#[test]
fn older_configs_default_to_continuous_acquisition_without_recording() {
    let config = AppConfig {
        version: 5,
        workspace: WorkspaceConfig {
            points: 201,
            run: RunSettings::default(),
            ..workspace_config()
        },
        ..standard()
    };
    let state = restart(&config);
    assert_eq!(state.workspace.run, RunSettings::default());
    assert!(!state.workspace.run.recording.enabled);
    assert_eq!(state.workspace.run.interval_ms, 0);
}

#[test]
fn source_settings_restore_without_resuming_output_or_recording() {
    let mut state = fresh();
    state.function = InstrumentFunction::AfSource;
    state.source.config.af.frequency_hz = 123_456;
    state.source.config.af.amplitude_mv = 1_234;
    state.source.config.af.modulation = "pm".to_string();
    state.source.config.af.pm_phase_deg = -123;
    state.source.pending = Some(SourcePending::Start);
    state.source.requested = Some(SourceParams {
        kind: SourceKind::Af,
        port: SourcePort::AfOut,
        frequency_hz: 123_456,
        amplitude: SourceAmplitude::Coded(1_234),
        modulation: Modulation::Off,
    });
    state.source.report = SourceReport {
        state: SourceOutputState::Requested(SourceKind::Af),
        warning: None,
    };
    let mut restored = restart(&store(&state));
    assert_eq!(restored.function, state.function);
    assert_eq!(restored.source.config, state.source.config);
    assert_eq!(restored.source.report.state, SourceOutputState::NotStarted);
    assert!(restored.source.pending.is_none());
    assert!(restored.source.requested.is_none());
    assert!(!restored.any_running());
    assert!(restored.active_plan.is_none());
    let old = AppConfig {
        version: 6,
        function: InstrumentFunction::Measurements,
        sources: sources(),
        ..standard()
    };
    apply(&old, &mut restored);
    assert_eq!(restored.function, InstrumentFunction::Measurements);
    assert_eq!(restored.source.config, sources());
}

#[test]
fn calibration_runtime_and_write_consent_are_never_restored() {
    let mut state = fresh();
    state.calibration.begin(CalibrationParams::S11System);
    state.calibration.consent = true;
    let config = store(&state);
    apply(&config, &mut state);
    assert_eq!(state.calibration.report.phase, CalibrationPhase::NotStarted);
    assert!(!state.calibration.busy());
    assert!(!state.calibration.open);
    assert!(!state.calibration.consent);
    assert!(state.calibration.frozen.is_none());
}

#[test]
fn invalid_strings_fall_back_to_defaults() {
    let config = AppConfig {
        version: 1,
        mode: "bogus".to_string(),
        s11: S11 {
            cal: "bogus".to_string(),
            display: "bogus".to_string(),
            rbw: Some("bogus".to_string()),
            ..Default::default()
        },
        ..standard()
    };
    let state = restart(&config);
    assert_eq!(state.workspace.selected, Some(TraceId(1)));
    assert_eq!(state.workspace.traces[0].settings.display, TraceDisplay::Spec);
    let s11 = &state.workspace.traces[1].settings;
    assert_eq!(s11.cal, Cal::CalOff);
    assert_eq!(s11.display, TraceDisplay::S11(S11Display::ReturnLoss));
    assert_eq!(s11.rbw, R10K);
}

#[test]
fn version_two_migration_preserves_deleted_profiles_and_explicit_bandwidth() {
    for mode in ["spec", "s11"] {
        let config = AppConfig {
            version: 2,
            mode: mode.to_string(),
            connection: tcp("bench.example.invalid", 901),
            ..standard()
        };
        let state = restart(&config);
        assert!(state.desktop.settings.profiles.is_empty());
        assert_eq!(state.workspace.traces.len(), 2);
        let shown: Vec<TraceId> = state
            .workspace
            .traces
            .iter()
            .filter(|trace| trace.settings.visible)
            .map(|trace| trace.id)
            .collect();
        assert_eq!(shown.len(), 1);
        assert_eq!(state.workspace.selected, Some(shown[0]));
        let selected = &state.workspace.traces[(shown[0].0 - 1) as usize];
        assert_eq!(selected.settings.display.mode(), parse_mode(mode));
        assert_eq!(state.workspace.traces[1].settings.rbw, R10K);
    }
}

#[test]
fn empty_workspace_stays_empty_and_deleted_ids_are_not_reused_after_restart() {
    let mut state = fresh();
    let id = state.workspace.selected.unwrap();
    state.workspace.remove_trace(id);
    let mut restored = restart(&store(&state));
    assert!(restored.workspace.traces.is_empty());
    assert!(restored.workspace.selected.is_none());
    let next = add(&mut restored.workspace, trace_settings(TraceDisplay::Spec));
    assert!(next.0 > id.0);
}

#[test]
fn malformed_trace_identities_cannot_collide_or_exceed_the_state_limit() {
    let mut config = WorkspaceConfig {
        traces: Vec::new(),
        next_id: 0,
        selected: Some(TraceId(999)),
        ..workspace_config()
    };
    for id in [0, 3, 3, u64::MAX, 1, 2, 4, 5, 6, 7, 8, 9, 10, 11] {
        let mut trace = trace_config("spec");
        trace.id = TraceId(id);
        config.traces.push(trace);
    }
    let workspace = restore(&config);
    assert_eq!(workspace.traces.len(), MAX_TRACES);
    assert_eq!(workspace.selected, Some(TraceId(10)));
    assert_eq!(workspace.next_id, 11);
}

#[test]
fn all_projections_and_unknown_current_values_have_stable_mappings() {
    for display in S11_DISPLAYS {
        assert_eq!(parse_display(display_as_str(display)), display);
    }
    let mut config = trace_config("future-display");
    config.cal = "future-cal".to_string();
    config.rbw = "future-rbw".to_string();
    config.lo = "future-lo".to_string();
    config.line_width = Width { bits: f32::NAN.to_bits() };
    let facts = restored_trace(&config, standard_range());
    assert_eq!(config.settings(&facts), trace_settings(TraceDisplay::Spec));
    for mode in [AppMode::Spec, AppMode::S11] {
        assert_eq!(parse_mode(mode_as_str(mode)), mode);
    }
    assert_eq!(parse_mode(mode_as_str(AppMode::S21)), AppMode::Spec);
}

#[test]
fn line_widths_are_clamped_like_floats() {
    for (width, expected) in [
        (0.1f32, 0.5f32),
        (-3.0, 0.5),
        (0.5, 0.5),
        (2.25, 2.25),
        (5.0, 5.0),
        (7.5, 5.0),
        (f32::INFINITY, 1.0),
        (f32::NEG_INFINITY, 1.0),
    ] {
        let clamped = Width { bits: width.to_bits() }.clamped();
        assert_eq!(f32::from_bits(clamped.bits), expected);
    }
}

#[test]
fn distinct_legacy_ranges_are_archived_without_overriding_the_shared_range() {
    let spec = || Spec {
        start_hz: number(500000.0),
        stop_hz: number(900000000.0),
        points: 101,
        log_x: true,
        ..Default::default()
    };
    let s11 = || S11 {
        start_hz: number(5000.0),
        stop_hz: number(650000000.0),
        points: 201,
        log_x: false,
        ..Default::default()
    };
    let legacy = AppConfig {
        version: 2,
        mode: "s11".to_string(),
        spec: spec(),
        s11: s11(),
        ..standard()
    };
    let mut state = restart(&legacy);
    assert_eq!(
        state.workspace.range,
        SweepRange { start_hz: number(5000.0), stop_hz: number(650e6), points: 201 }
    );
    state.workspace.range =
        SweepRange { start_hz: number(1e6), stop_hz: number(2e6), points: 401 };
    let restored = restart(&store(&state));
    assert_eq!(restored.workspace.range, state.workspace.range);
    let archive = restored.legacy_sweeps.unwrap();
    assert_eq!(archive.mode, "s11");
    assert_eq!(archive.spec, spec());
    assert_eq!(archive.s11, s11());
}

#[test]
fn the_platform_knows_the_program_by_its_names() {
    assert_eq!(project_name(), ("io.github", "vowstar", "kcsdi"));
    if let Some(ConfigFile::InDirectory(directory)) = config_path_with_override(Some("")) {
        assert!(directory.to_string_lossy().contains("kcsdi"));
    }
}

#[test]
fn settings_of_a_program_that_was_never_used_are_those_of_a_fresh_state() {
    let workspace = fresh_workspace();
    let config = AppConfig::standard(&workspace, &store_facts(&workspace), sources());
    assert_eq!(config, standard());
    assert_eq!(config.version, CONFIG_VERSION);
    assert_eq!(config.mode, "spec");
    assert!(config.legacy_sweeps.is_none());
    assert_eq!(store(&restart(&config)), config);
    let settings = trace_settings(TraceDisplay::Spec);
    let trace = TraceConfig::standard(&settings, &wire_names(&settings));
    assert_eq!(trace.id, TraceId(1));
    assert_eq!(trace.display, "spec");
    assert!(trace.y_view.is_none() && trace.analysis.is_none());
}

#[test]
fn early_files_fall_back_on_plain_settings() {
    let defaults = trace_settings(TraceDisplay::Spec);
    let color = Color { r: 200, g: 20, b: 30, a: 255 };
    let config = AppConfig {
        mode: "s11".to_string(),
        s11: S11 { display: "smith".to_string(), log_x: true, ..Default::default() },
        ..standard()
    };
    let (range, log_x) = config.early_grid();
    assert_eq!((range.start_hz, range.points), (config.s11.start_hz, config.s11.points));
    assert!(log_x);
    let spec = config.early_spec(defaults, None);
    assert_eq!((spec.rbw, spec.visible), (R10K, false));
    assert_eq!(spec.ref_level_dbm, config.spec.ref_level_dbm);
    let s11 = config.early_s11(defaults, None, None, color);
    assert_eq!((s11.cal, s11.rbw, s11.visible, s11.color), (Cal::CalOff, R10K, true, color));
    assert_eq!(s11.display, TraceDisplay::S11(S11Display::Smith));
    let known = Rbw { hz: 1_000 };
    assert_eq!(config.early_s11(defaults, None, Some(known), color).rbw, known);
}

#[test]
fn outlines_sweep_the_stored_frequencies_without_traces() {
    let smith = SmithView { zoom: number(1.0), dx: number(0.0), dy: number(0.0) };
    let listed = WorkspaceConfig {
        sweep_mode: None,
        list_mode: true,
        frequencies_hz: vec![5, 7],
        traces: vec![trace_config("spec")],
        ..workspace_config()
    };
    let outline = listed.outline(plain_view(), smith);
    assert_eq!(outline.sweep_mode, SweepMode::List);
    assert_eq!(outline.frequencies_hz, [5, 7]);
    assert!(outline.traces.is_empty() && outline.selected.is_none());
    let ranged = WorkspaceConfig { sweep_mode: Some(SweepMode::Range), ..listed };
    assert_eq!(ranged.outline(plain_view(), smith).sweep_mode, SweepMode::Range);
    assert_eq!(restore(&ranged).sweep_mode, SweepMode::Range);
}
