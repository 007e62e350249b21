use kcsdi_gui::acquisition::{AcquisitionSettings, CompletedSweep};
use kcsdi_gui::analysis_tools::{
    column_label, column_unit, difference_unit, overlay_name, values, AnalysisConfig,
    AnalysisTools, HoldKind, Marker, MarkerTarget, OverlayVisibilityConfig, Search, SmithRow, Unit,
    MAX_MARKERS,
};
use kcsdi_gui::model::{
    Cal, Format, Lo, Rbw, Real, S11Params, S21Params, SpecParams, StreamMode, SweepData, SweepPoint,
};
use kcsdi_gui::text::{Caption, Language, Text};
use std::sync::Arc;

const R10K: Rbw = Rbw { hz: 10_000 };
const R1K: Rbw = Rbw { hz: 1_000 };
const LANGUAGES: [Language; 2] = [Language::English, Language::SimplifiedChinese];

fn number(value: f64) -> Real {
    Real { bits: value.to_bits() }
}

fn float(value: Real) -> f64 {
    f64::from_bits(value.bits)
}

fn row(numbers: &[f64]) -> Vec<Real> {
    numbers.iter().map(|value| number(*value)).collect()
}

fn table(rows: &[&[f64]]) -> Vec<Vec<Real>> {
    rows.iter().map(|numbers| row(numbers)).collect()
}

fn trace(numbers: &[f64]) -> SweepData {
    SweepData {
        mode: StreamMode::Spec,
        format: String::new(),
        points: numbers
            .iter()
            .enumerate()
            .map(|(index, &value)| SweepPoint {
                freq_hz: number((index + 1) as f64 * 1e6),
                values: row(&[value]),
            })
            .collect(),
    }
}

fn copy(data: &SweepData) -> SweepData {
    kcsdi_gui::analysis_tools::copy_data(data)
}

fn format_of(name: &str) -> Format {
    match name {
        "ri" => Format::Ri,
        "ma" => Format::Ma,
        "z" => Format::Z,
        "loss" => Format::Loss,
        "vswr" => Format::Vswr,
        "delay" => Format::Delay,
        other => panic!("no format {other}"),
    }
}

fn snapshot(data: &SweepData) -> CompletedSweep {
    let points = data.points.len() as u32;
    let start_hz = float(data.points[0].freq_hz) as u64;
    let stop_hz = float(data.points.last().unwrap().freq_hz) as u64;
    let settings = match data.mode {
        StreamMode::S11 => AcquisitionSettings::S11(S11Params {
            cal: Cal::CalOff,
            format: format_of(&data.format),
            points,
            start_hz,
            stop_hz,
            rbw: Some(R10K),
        }),
        StreamMode::S21 => AcquisitionSettings::S21(S21Params {
            cal: Cal::CalOff,
            format: format_of(&data.format),
            lo: Lo::HighLo,
            points,
            start_hz,
            stop_hz,
            rbw: Some(R10K),
        }),
        StreamMode::Spec => AcquisitionSettings::Spec(SpecParams {
            cal: Cal::CalOff,
            lo: Lo::HighLo,
            points,
            start_hz,
            stop_hz,
            rbw: R10K,
            ref_level_dbm: -10,
        }),
    };
    CompletedSweep { data: copy(data), segments: None, settings, session_id: 1, completed_at: 0 }
}

/// Distances of every point from a frequency.
fn away(data: &SweepData, frequency: f64) -> Vec<Real> {
    data.points.iter().map(|point| number((float(point.freq_hz) - frequency).abs())).collect()
}

fn marker_distances(tools: &AnalysisTools, data: &SweepData) -> Vec<Vec<Real>> {
    tools.markers().iter().map(|marker| away(data, float(marker.frequency_hz))).collect()
}

fn observe(tools: &mut AnalysisTools, complete: CompletedSweep) {
    let distances = marker_distances(tools, &complete.data);
    tools.observe(&Arc::new(complete), &distances);
}

fn see(tools: &mut AnalysisTools, data: &SweepData) {
    observe(tools, snapshot(data));
}

fn put(tools: &mut AnalysisTools, data: &SweepData, frequency: f64) {
    let distances = away(data, frequency);
    tools.add_marker(data, number(frequency), &distances);
}

fn drag(tools: &mut AnalysisTools, data: &SweepData, frequency: f64) {
    let distances = away(data, frequency);
    tools.move_selected(data, number(frequency), &distances);
}

fn at(tools: &AnalysisTools, index: usize) -> f64 {
    float(tools.markers[index].frequency_hz)
}

fn sample(tools: &AnalysisTools, data: &SweepData, frequency: f64) -> Option<(f64, f64)> {
    let distances = away(data, frequency);
    tools
        .target_sample(data, number(frequency), 0, &distances)
        .map(|(hz, value)| (float(hz), float(value)))
}

fn holding(hold: bool, max_hold: bool, min_hold: bool) -> AnalysisTools {
    AnalysisTools { hold, max_hold, min_hold, ..Default::default() }
}

#[test]
fn holds_preserve_snapshot_and_update_envelopes_without_mutating_input() {
    let first = trace(&[-8.0, -5.0, -10.0]);
    let second = trace(&[-4.0, -9.0, f64::NAN]);
    let mut tools = holding(true, true, true);
    see(&mut tools, &first);
    see(&mut tools, &second);
    assert_eq!(tools.held, Some(table(&[&[-8.0], &[-5.0], &[-10.0]])));
    assert_eq!(tools.maxima, Some(table(&[&[-4.0], &[-5.0], &[-10.0]])));
    assert_eq!(tools.minima, Some(table(&[&[-8.0], &[-9.0], &[-10.0]])));
    assert_eq!(first.points[0].values, row(&[-8.0]));
    assert_eq!(tools.overlay_series(&vec![0]).len(), 3);
}

#[test]
fn overlay_visibility_survives_frames_reordering_translation_and_new_sweeps() {
    let mut data = trace(&[3.0, 4.0, 5.0]);
    data.mode = StreamMode::S11;
    data.format = "z".to_string();
    for point in &mut data.points {
        point.values = row(&[50.0, 30.0, 40.0]);
    }
    let mut tools = holding(true, true, false);
    see(&mut tools, &data);
    let mut overlays = tools.overlay_series(&vec![0, 1, 2]);
    overlays[1].visible = false;
    tools.apply_overlay_visibility(&overlays);
    tools.set_language(Language::SimplifiedChinese);
    see(&mut tools, &data);
    let reordered = tools.overlay_series(&vec![2, 1]);
    assert!(reordered[0].visible);
    assert!(!reordered[1].visible);
    assert!(reordered[2].visible && reordered[3].visible);
    assert_eq!(reordered[1].points[0], (number(1e6), number(30.0)));
}

#[test]
fn overlay_labels_follow_language_without_opening_trace_controls() {
    let data = trace(&[3.0, 4.0, 5.0]);
    let mut tools = holding(true, true, true);
    see(&mut tools, &data);
    let config = tools.config();
    for language in [Language::SimplifiedChinese, Language::English] {
        tools.set_language(language);
        let overlays = tools.overlay_series(&vec![0]);
        let names: Vec<Caption> = overlays.iter().map(|series| series.name).collect();
        assert_eq!(
            names,
            [Text::AnalysisHold, Text::AnalysisMaxHold, Text::AnalysisMinHold]
                .map(|key| language.text(key))
        );
        assert!(overlays.iter().all(|series| series.points[0] == (number(1e6), number(3.0))));
        assert_eq!(tools.config(), config);
    }
    assert_eq!(tools.latest.as_ref().unwrap().data, data);
}

#[test]
fn marker_table_keeps_small_delay_values_and_deltas_in_seconds() {
    let mut data = trace(&[-5.147039e-9, 0.375e-9]);
    data.mode = StreamMode::S21;
    data.format = "delay".to_string();
    let mut tools = AnalysisTools::default();
    put(&mut tools, &data, 2e6);
    tools.markers[0].frequency_hz = number(1e6);
    tools.markers[0].reference = true;
    put(&mut tools, &data, 2e6);
    let distances = marker_distances(&tools, &data);
    for language in LANGUAGES {
        tools.set_language(language);
        let rows = tools.marker_table(&data, &distances);
        assert_eq!(rows.len(), 2);
        assert_eq!(rows[0].unit.text(), "s");
        assert_eq!(rows[1].unit.text(), "s");
        assert_eq!(rows[0].suffix(language), Some(language.text(Text::AnalysisReference)));
        assert_eq!(rows[1].suffix(language), Some(language.text(Text::AnalysisDelta)));
        let reference = float(rows[0].sample.unwrap().1);
        assert_eq!(format!("{reference:.3e}"), "-5.147e-9");
        assert!(rows[1].delta && !rows[0].delta);
        let difference = float(rows[1].sample.unwrap().1) - reference;
        assert_eq!(format!("{difference:.3e}"), "5.522e-9");
    }
    assert_eq!(data.points[0].values[0], number(-5.147039e-9));
    assert_eq!(column_label("delay", 0, Language::English), Caption::Literal("s"));
}

#[test]
fn marker_units_match_the_raw_measurement_column() {
    let mut data = trace(&[1.0, 2.0]);
    assert_eq!(column_unit(&data, 0).text(), "dBm");
    data.mode = StreamMode::S21;
    for (format, column, unit) in [
        ("ma", 0, ""),
        ("ma", 1, "deg"),
        ("loss", 0, "dB"),
        ("delay", 0, "s"),
        ("ri", 0, ""),
        ("ri", 1, ""),
    ] {
        data.format = format.to_string();
        assert_eq!(column_unit(&data, column).text(), unit);
    }
    data.mode = StreamMode::S11;
    data.format = "z".to_string();
    for column in 0..3 {
        assert_eq!(column_unit(&data, column).text(), "ohm");
    }
}

#[test]
fn s21_holds_keep_raw_seconds_and_reset_for_calibration_or_lo_changes() {
    let delay = |numbers: &[f64]| {
        let mut data = trace(numbers);
        data.mode = StreamMode::S21;
        data.format = "delay".to_string();
        snapshot(&data)
    };
    let first = delay(&[-5e-9, 2e-9, -3e-9]);
    let unchanged = copy(&first.data);
    let mut tools = holding(true, true, true);
    observe(&mut tools, first);
    observe(&mut tools, delay(&[-4e-9, 1e-9, -8e-9]));
    let overlays = tools.overlay_series(&vec![0]);
    assert_eq!(overlays[0].points[0], (number(1e6), number(-5e-9)));
    assert_eq!(overlays[1].points[0], (number(1e6), number(-4e-9)));
    assert_eq!(overlays[2].points[2], (number(3e6), number(-8e-9)));
    for (cal, lo) in [(Cal::CalSys, Lo::HighLo), (Cal::CalOff, Lo::LowLo)] {
        let mut changed = delay(&[1e-9, 2e-9, 3e-9]);
        let AcquisitionSettings::S21(params) = &mut changed.settings else { unreachable!() };
        params.cal = cal;
        params.lo = lo;
        observe(&mut tools, changed);
        assert!(tools
            .overlay_series(&vec![0])
            .iter()
            .all(|series| series.points[0] == (number(1e6), number(1e-9))));
    }
    assert_eq!(unchanged.points[0].values[0], number(-5e-9));
}

#[test]
fn s21_phase_markers_search_phase_instead_of_magnitude() {
    let mut data = trace(&[0.9, 0.1, 0.2]);
    data.mode = StreamMode::S21;
    data.format = "ma".to_string();
    for (point, phase) in data.points.iter_mut().zip([-80.0, 120.0, -30.0]) {
        point.values.push(number(phase));
    }
    let mut tools = AnalysisTools::default();
    see(&mut tools, &data);
    assert_eq!(tools.column, 1);
    put(&mut tools, &data, 2e6);
    tools.search(&data, Search::Maximum);
    assert_eq!(at(&tools, 0), 2e6);
    tools.search(&data, Search::Minimum);
    assert_eq!(at(&tools, 0), 1e6);
}

#[test]
fn grid_format_and_column_changes_reset_envelopes() {
    let mut tools = holding(true, true, false);
    let mut data = trace(&[1.0, 2.0, 3.0]);
    see(&mut tools, &data);
    data.points[0].freq_hz = number(1e6 + 1.0);
    data.points[0].values[0] = number(-1.0);
    see(&mut tools, &data);
    assert_eq!(tools.maxima.as_ref().unwrap()[0][0], number(-1.0));
    data.format = "ma".to_string();
    data.mode = StreamMode::S11;
    for point in &mut data.points {
        point.values = row(&[0.5, -30.0]);
    }
    see(&mut tools, &data);
    assert_eq!(tools.column, 1);
    assert_eq!(tools.held.as_ref().unwrap()[0], row(&[0.5, -30.0]));
}

#[test]
fn marker_search_uses_measured_extrema_and_keeps_ids() {
    let data = trace(&[9.0, 4.0, 3.0, 8.0, 5.0]);
    let mut tools = AnalysisTools::default();
    put(&mut tools, &data, 3e6);
    tools.search(&data, Search::Left);
    assert_eq!(at(&tools, 0), 1e6);
    tools.search(&data, Search::Right);
    assert_eq!(at(&tools, 0), 4e6);
    tools.search(&data, Search::Minimum);
    assert_eq!(at(&tools, 0), 3e6);
    for _ in 0..20 {
        put(&mut tools, &data, 3e6);
    }
    assert_eq!(tools.markers.len(), MAX_MARKERS);
    assert_eq!(tools.markers.iter().filter(|marker| marker.selected).count(), 1);
    assert_eq!(sample(&tools, &data, 2.4e6), Some((2e6, 4.0)));
}

#[test]
fn smith_hold_retains_whole_measured_rows_instead_of_scalar_envelopes() {
    let single = |numbers: &[f64]| SweepData {
        mode: StreamMode::S11,
        format: "z".to_string(),
        points: vec![SweepPoint { freq_hz: number(1e6), values: row(numbers) }],
    };
    let first = single(&[50.0, 30.0, 40.0]);
    let second = single(&[50.0, 50.0, 0.0]);
    let mut tools = holding(true, true, false);
    see(&mut tools, &first);
    see(&mut tools, &second);
    assert_eq!(tools.held_trace(), Some(first));
    assert_eq!(tools.maxima.as_ref().unwrap()[0], row(&[50.0, 50.0, 40.0]));
}

#[test]
fn acquisition_conditions_and_sessions_reset_holds_on_an_identical_grid() {
    let first = || snapshot(&trace(&[1.0, 2.0, 3.0]));
    let next = || snapshot(&trace(&[-1.0, -2.0, -3.0]));
    let AcquisitionSettings::Spec(base) = first().settings else { unreachable!() };
    let mut changed: Vec<CompletedSweep> = [
        SpecParams { cal: Cal::CalSys, ..base },
        SpecParams { lo: Lo::LowLo, ..base },
        SpecParams { rbw: R1K, ..base },
        SpecParams { ref_level_dbm: -20, ..base },
    ]
    .into_iter()
    .map(|settings| CompletedSweep { settings: AcquisitionSettings::Spec(settings), ..next() })
    .collect();
    changed.push(CompletedSweep { session_id: 2, ..next() });
    for sweep in changed {
        let data = copy(&sweep.data);
        let mut tools = holding(true, true, true);
        observe(&mut tools, first());
        observe(&mut tools, sweep);
        assert_eq!(tools.maxima, Some(values(&data)));
        assert_eq!(tools.minima, Some(values(&data)));
        assert_eq!(tools.held_trace(), Some(data));
    }
}

#[test]
fn calibration_boundary_retains_definitions_and_never_combines_old_holds() {
    let before = trace(&[100.0, 200.0, 300.0]);
    let after = trace(&[-1.0, -2.0, -3.0]);
    let mut tools = holding(true, true, true);
    see(&mut tools, &before);
    put(&mut tools, &before, 2e6);
    let config = tools.config();
    tools.invalidate_measurements();
    assert_eq!(tools.config(), config);
    assert!(tools.latest.is_none());
    assert!(tools.held_trace().is_none());
    assert!(tools.overlay_series(&vec![0]).is_empty());
    tools.refresh_holds(&before);
    assert!(tools.overlay_series(&vec![0]).is_empty());
    see(&mut tools, &after);
    assert_eq!(tools.maxima, Some(values(&after)));
    assert_eq!(tools.minima, Some(values(&after)));
    assert_eq!(tools.held_trace(), Some(after));
    assert_eq!(tools.config(), config);
}

#[test]
fn timestamps_do_not_reset_holds_and_shared_snapshots_keep_analysis_independent() {
    let first = Arc::new(snapshot(&trace(&[1.0, 2.0, 3.0])));
    let mut later = snapshot(&trace(&[4.0, 5.0, 6.0]));
    later.completed_at += 1_000;
    let next = Arc::new(later);
    let mut frozen = holding(true, true, false);
    let mut live = AnalysisTools::default();
    frozen.set_trace_id(1);
    live.set_trace_id(2);
    for tools in [&mut frozen, &mut live] {
        tools.observe(&first, &Vec::new());
        tools.observe(&next, &Vec::new());
    }
    assert_eq!(frozen.held_trace(), Some(copy(&first.data)));
    assert_eq!(frozen.maxima, Some(values(&next.data)));
    assert!(live.held_trace().is_none());
    assert!(live.maxima.is_none());
    frozen.reset_holds();
    frozen.observe(&next, &Vec::new());
    assert_eq!(frozen.held_trace(), Some(copy(&next.data)));
    assert_eq!(first.data.points[0].values, row(&[1.0]));
}

#[test]
fn targets_search_and_read_the_same_rows_without_falling_back() {
    let first = trace(&[8.0, 1.0, 3.0]);
    let second = trace(&[2.0, 9.0, 0.0]);
    let mut tools = holding(true, true, true);
    see(&mut tools, &first);
    see(&mut tools, &second);
    put(&mut tools, &second, 2e6);
    for (target, frequency, value) in [
        (MarkerTarget::Current, 2e6, 9.0),
        (MarkerTarget::Hold, 1e6, 8.0),
        (MarkerTarget::Maximum, 2e6, 9.0),
        (MarkerTarget::Minimum, 1e6, 2.0),
    ] {
        tools.target = target;
        tools.search(&second, Search::Maximum);
        assert_eq!(at(&tools, 0), frequency);
        assert_eq!(sample(&tools, &second, frequency), Some((frequency, value)));
    }
    tools.target = MarkerTarget::Hold;
    assert_eq!(tools.marker_trace(), Some(copy(&first)));
    tools.hold = false;
    assert!(sample(&tools, &second, 2e6).is_none());
    assert!(tools.marker_trace().is_none());
    tools.search(&second, Search::Maximum);
    assert_eq!(at(&tools, 0), 1e6);
    tools.hold = true;
    let mut changed_grid = second;
    changed_grid.points[1].freq_hz = number(2e6 + 1.0);
    assert!(sample(&tools, &changed_grid, 2e6).is_none());
    for target in [MarkerTarget::Maximum, MarkerTarget::Minimum] {
        tools.target = target;
        assert!(tools.marker_trace().is_none());
    }
    let config = tools.config();
    tools.restore_config(&config);
    assert!(sample(&tools, &first, 2e6).is_none());
    assert!(tools.marker_trace().is_none());
}

#[test]
fn auto_peak_uses_complete_targets_and_manual_moves_disable_only_that_marker() {
    let first = trace(&[8.0, 1.0, 3.0]);
    let second = trace(&[2.0, 9.0, 0.0]);
    let mut tools = holding(true, false, false);
    see(&mut tools, &first);
    put(&mut tools, &first, 2e6);
    tools.markers[0].auto_peak = true;
    put(&mut tools, &first, 3e6);
    see(&mut tools, &second);
    assert_eq!(at(&tools, 0), 2e6);
    assert_eq!(at(&tools, 1), 3e6);
    assert!(!tools.markers[1].auto_peak);
    tools.target = MarkerTarget::Hold;
    tools.refresh_auto_peaks(&second);
    assert_eq!(at(&tools, 0), 1e6);
    tools.markers[0].selected = true;
    tools.markers[1].selected = false;
    drag(&mut tools, &second, 2.6e6);
    assert_eq!(at(&tools, 0), 3e6);
    assert!(!tools.markers[0].auto_peak);
    tools.markers[0].auto_peak = true;
    tools.search(&second, Search::Left);
    assert_eq!(at(&tools, 0), 1e6);
    assert!(!tools.markers[0].auto_peak);
    tools.markers[0].auto_peak = true;
    tools.search(&second, Search::Left);
    assert_eq!(at(&tools, 0), 1e6);
    assert!(!tools.markers[0].auto_peak);
}

#[test]
fn hold_toggles_do_not_create_an_acquisition_or_retarget_an_auto_marker() {
    let data = trace(&[9.0, 2.0, 3.0]);
    let mut complete = snapshot(&data);
    complete.completed_at = 7;
    let mut tools = AnalysisTools::default();
    observe(&mut tools, complete);
    put(&mut tools, &data, 2e6);
    tools.markers[0].auto_peak = true;
    tools.hold = true;
    tools.max_hold = true;
    tools.refresh_holds(&data);
    assert_eq!(at(&tools, 0), 2e6);
    assert_eq!(tools.latest.as_ref().unwrap().completed_at, 7);
    assert_eq!(tools.latest.as_ref().unwrap().data, data);
    assert_eq!(tools.held_trace(), Some(data));
}

#[test]
fn selected_component_survives_receiver_grid_and_session_changes() {
    let mut data = trace(&[50.0, 60.0, 70.0]);
    data.mode = StreamMode::S11;
    data.format = "z".to_string();
    for point in &mut data.points {
        point.values = row(&[50.0, 30.0, -40.0]);
    }
    let mut rbw = Some(R10K);
    let mut session_id = 1;
    let mut tools = AnalysisTools::default();
    see(&mut tools, &data);
    tools.column = 1;
    for step in 0..4 {
        match step {
            0 => rbw = Some(R1K),
            1 => data.points[1].freq_hz = number(2e6 + 1.0),
            2 => session_id += 1,
            _ => {
                let config = tools.config();
                tools.restore_config(&config);
            }
        }
        let mut complete = snapshot(&data);
        let AcquisitionSettings::S11(params) = &mut complete.settings else { unreachable!() };
        params.rbw = rbw;
        complete.session_id = session_id;
        observe(&mut tools, complete);
        assert_eq!(tools.column, 1);
    }
    see(&mut tools, &trace(&[1.0, 2.0, 3.0]));
    assert_eq!(tools.column, 0);
}

#[test]
fn centers_and_side_searches_use_measured_frequency_and_finite_first_ties() {
    let mut data = trace(&[9.0, 4.0, f64::NAN, 9.0, f64::INFINITY]);
    data.points[1].freq_hz = data.points[0].freq_hz;
    let mut tools = AnalysisTools::default();
    put(&mut tools, &data, 3e6);
    assert_eq!(at(&tools, 0), 3e6);
    tools.search(&data, Search::Maximum);
    assert_eq!(at(&tools, 0), 1e6);
    tools.search(&data, Search::Right);
    assert_eq!(at(&tools, 0), 4e6);
    tools.search(&data, Search::Right);
    assert_eq!(at(&tools, 0), 4e6);
    tools.markers[0].auto_peak = true;
    drag(&mut tools, &data, 2.1e6);
    assert_eq!(at(&tools, 0), 3e6);
    assert!(!tools.markers[0].auto_peak);
    drag(&mut tools, &data, f64::NAN);
    assert_eq!(at(&tools, 0), 3e6);
}

fn overlay(format: &str, kind: usize, column: usize, visible: bool) -> OverlayVisibilityConfig {
    OverlayVisibilityConfig { format: format.to_string(), kind, column, visible }
}

#[test]
fn marker_config_sanitizes_definitions_and_does_not_wrap_exhausted_ids() {
    let marker = |id: u32, frequency: f64| Marker {
        id,
        frequency_hz: number(frequency),
        selected: true,
        reference: true,
        auto_peak: true,
    };
    let mut config = AnalysisConfig {
        markers: vec![
            marker(0, 1e6),
            marker(1, f64::NAN),
            marker(2, -1.0),
            marker(3, 0.0),
            marker(3, 2e6),
        ],
        next_id: 15,
        hold: true,
        column: usize::MAX,
        target: MarkerTarget::Hold,
        overlay_visibility: vec![
            overlay("z", 0, 1, false),
            overlay("unknown", 0, 0, true),
            overlay("z", 3, 0, true),
        ],
        ..Default::default()
    };
    config.markers.extend((4..20).map(|id| marker(id, f64::from(id) * 1e6)));
    let mut tools = AnalysisTools::default();
    tools.restore_config(&config);
    assert_eq!(tools.markers.len(), MAX_MARKERS);
    assert_eq!(at(&tools, 0), 0.0);
    assert_eq!(tools.markers.iter().filter(|marker| marker.selected).count(), 1);
    assert_eq!(tools.markers.iter().filter(|marker| marker.reference).count(), 1);
    assert_eq!(tools.column, 2);
    assert_eq!(tools.overlay_visibility.len(), 1);
    assert!(tools.latest.is_none() && tools.held.is_none());
    let restored = tools.config();
    let mut again = AnalysisTools::default();
    again.restore_config(&restored);
    assert_eq!(again.config(), restored);
    tools.markers.clear();
    let data = trace(&[1.0, 2.0, 3.0]);
    put(&mut tools, &data, 2e6);
    assert_eq!(tools.markers[0].id, 16);
    config.markers = vec![marker(u32::MAX, 1e6)];
    config.next_id = 0;
    tools.restore_config(&config);
    tools.markers.clear();
    put(&mut tools, &data, 2e6);
    assert!(tools.markers.is_empty());
    assert_eq!(tools.next_id, u32::MAX);
}

/// The impedance that belongs to a reflection coefficient, at 50 ohm.
fn impedance(re: f64, im: f64) -> (Real, Real) {
    let denominator = (1.0 - re) * (1.0 - re) + im * im;
    let resistance = 50.0 * (1.0 - re * re - im * im) / denominator;
    let reactance = 50.0 * 2.0 * im / denominator;
    (number(resistance), number(reactance))
}

fn smith_sample(tools: &AnalysisTools, data: &SweepData, hz: f64) -> Option<(f64, f64, f64)> {
    let placed = tools.smith_row(data, number(hz), &away(data, hz))?;
    let converted = match placed {
        SmithRow::Reflection { re, im, .. } => impedance(float(re), float(im)),
        SmithRow::Impedance { .. } => (number(0.0), number(0.0)),
    };
    placed.reading(converted).map(|(hz, r, x)| (float(hz), float(r), float(x)))
}

#[test]
fn smith_uses_whole_current_or_held_impedance_and_clears_scalar_actions() {
    let mut data = trace(&[0.0, 0.5, 1.0]);
    data.mode = StreamMode::S11;
    data.format = "ri".to_string();
    for point in &mut data.points {
        point.values.push(number(0.0));
    }
    let mut tools = holding(true, false, false);
    see(&mut tools, &data);
    put(&mut tools, &data, 2e6);
    tools.markers[0].reference = true;
    tools.markers[0].auto_peak = true;
    tools.target = MarkerTarget::Maximum;
    tools.set_smith(true);
    assert_eq!(tools.target, MarkerTarget::Current);
    assert!(!tools.markers[0].reference && !tools.markers[0].auto_peak);
    assert_eq!(smith_sample(&tools, &data, 1e6), Some((1e6, 50.0, 0.0)));
    assert_eq!(smith_sample(&tools, &data, 2e6), Some((2e6, 150.0, 0.0)));
    assert!(smith_sample(&tools, &data, 3e6).is_none());
    let first = copy(&data);
    data.points[1].values = row(&[0.0, -0.5]);
    see(&mut tools, &data);
    assert_eq!(smith_sample(&tools, &data, 2e6), Some((2e6, 30.0, -40.0)));
    tools.target = MarkerTarget::Hold;
    assert_eq!(tools.marker_trace(), Some(first));
    assert_eq!(smith_sample(&tools, &data, 2e6), Some((2e6, 150.0, 0.0)));
    let mut config = tools.config();
    config.markers[0].reference = true;
    config.markers[0].auto_peak = true;
    config.target = MarkerTarget::Minimum;
    tools.restore_config(&config);
    assert_eq!(tools.target, MarkerTarget::Current);
    assert!(!tools.markers[0].reference && !tools.markers[0].auto_peak);
}

#[test]
fn spectrum_delta_readout_identifies_reference_target_and_difference_units() {
    let data = trace(&[-30.0, -10.0, -20.0]);
    let mut tools = AnalysisTools::default();
    put(&mut tools, &data, 1e6);
    tools.markers[0].reference = true;
    put(&mut tools, &data, 2e6);
    let distances = marker_distances(&tools, &data);
    for language in LANGUAGES {
        let rows = tools.marker_table(&data, &distances);
        assert_eq!((rows[0].id, rows[1].id), (1, 2));
        assert_eq!(rows[0].suffix(language), Some(language.text(Text::AnalysisReference)));
        assert_eq!(rows[1].suffix(language), Some(language.text(Text::AnalysisDelta)));
        assert_eq!(tools.target.label(language), language.text(Text::AnalysisCurrent));
        assert_eq!(rows[0].unit.text(), "dBm");
        assert_eq!(rows[1].unit.text(), "dB");
        let reference = float(rows[0].sample.unwrap().1);
        assert_eq!(reference, -30.0);
        assert_eq!(float(rows[1].sample.unwrap().1) - reference, 20.0);
    }
    assert_eq!(difference_unit(&data, 0, true), Unit::Decibels);
    assert_eq!(difference_unit(&data, 0, false), Unit::DecibelMilliwatts);
}

#[test]
fn marker_frequency_grid_uses_the_chosen_completed_target_and_column() {
    let first = trace(&[10.0, f64::NAN, 30.0]);
    let second = trace(&[f64::NAN, 20.0, 40.0]);
    let mut tools = holding(true, true, true);
    see(&mut tools, &first);
    see(&mut tools, &second);
    for (target, expected) in [
        (MarkerTarget::Current, vec![2e6, 3e6]),
        (MarkerTarget::Hold, vec![1e6, 3e6]),
        (MarkerTarget::Maximum, vec![1e6, 2e6, 3e6]),
        (MarkerTarget::Minimum, vec![1e6, 2e6, 3e6]),
    ] {
        tools.target = target;
        assert_eq!(tools.marker_frequencies(&second), row(&expected));
    }
    tools.target = MarkerTarget::Hold;
    let mut different = copy(&second);
    different.points[0].freq_hz = number(1e6 + 1.0);
    assert!(tools.marker_frequencies(&different).is_empty());
    tools.hold = false;
    assert!(tools.marker_frequencies(&second).is_empty());
    tools.target = MarkerTarget::Current;
    tools.column = 1;
    assert!(tools.marker_frequencies(&second).is_empty());
}

#[test]
fn marker_frequency_grid_preserves_reported_order_and_duplicates() {
    let mut data = trace(&[1.0, 2.0, 3.0, 4.0]);
    for (point, frequency) in data.points.iter_mut().zip([3e6, 2e6, 2e6, f64::INFINITY]) {
        point.freq_hz = number(frequency);
    }
    assert_eq!(AnalysisTools::default().marker_frequencies(&data), row(&[3e6, 2e6, 2e6]));
}

#[test]
fn stopped_hold_reset_recaptures_and_retargets_auto_peak_without_a_new_sweep() {
    let first = trace(&[9.0, 2.0, 3.0]);
    let second = trace(&[1.0, 2.0, 8.0]);
    let mut tools = AnalysisTools { target: MarkerTarget::Hold, ..holding(true, false, false) };
    see(&mut tools, &first);
    put(&mut tools, &first, 2e6);
    tools.markers[0].auto_peak = true;
    let mut complete = snapshot(&second);
    complete.completed_at = 9;
    observe(&mut tools, complete);
    assert_eq!(at(&tools, 0), 1e6);
    tools.restart_holds(Some(&second));
    assert_eq!(tools.held_trace(), Some(second));
    assert_eq!(at(&tools, 0), 3e6);
    assert!(tools.markers[0].auto_peak);
    assert_eq!(tools.latest.as_ref().unwrap().completed_at, 9);
}

#[test]
fn disabling_holds_without_display_data_discards_buffers_before_reenabling() {
    let first = trace(&[-1.0, 8.0, 3.0]);
    let current = trace(&[2.0, 3.0, 9.0]);
    for kind in [HoldKind::Frozen, HoldKind::Maximum, HoldKind::Minimum] {
        let mut tools = holding(true, true, true);
        see(&mut tools, &first);
        see(&mut tools, &current);
        let buffer = |tools: &AnalysisTools| match kind {
            HoldKind::Frozen => tools.held.clone(),
            HoldKind::Maximum => tools.maxima.clone(),
            HoldKind::Minimum => tools.minima.clone(),
        };
        assert!(buffer(&tools).is_some());
        tools.toggle_hold(kind, None);
        assert!(buffer(&tools).is_none(), "disabled buffer {kind:?} survived absent display data");
        tools.toggle_hold(kind, None);
        assert!(buffer(&tools).is_none(), "enabling buffer {kind:?} captured absent display data");
        tools.toggle_hold(kind, None);
        tools.toggle_hold(kind, Some(&current));
        assert_eq!(buffer(&tools), Some(values(&current)));
        assert_eq!(tools.latest.as_ref().unwrap().data, current);
        assert_eq!(tools.latest.as_ref().unwrap().completed_at, 0);
    }
}

#[test]
fn bilingual_controls_fit_a_narrow_panel_and_tables_identify_trace_and_component() {
    for language in LANGUAGES {
        for (format, magnitudes, smith) in [
            ("z", [1e200, -1e200, 2e200], false),
            ("delay", [-5e-12, 3e-12, 1e-12], false),
            ("ri", [0.0, 0.25, 0.5], true),
        ] {
            let mut data = trace(&magnitudes);
            data.mode = if format == "delay" { StreamMode::S21 } else { StreamMode::S11 };
            data.format = format.to_string();
            for (index, point) in data.points.iter_mut().enumerate() {
                point.freq_hz = number(6_000_000_000.0 + index as f64 * 1e6);
                let value = float(point.values[0]);
                if format == "z" {
                    point.values = row(&[value.abs(), value, 1e200]);
                }
                if format == "ri" {
                    point.values.push(number(-0.25));
                }
            }
            let mut tools = AnalysisTools { trace_id: 42, ..holding(true, false, false) };
            tools.set_smith(smith);
            see(&mut tools, &data);
            tools.target = MarkerTarget::Hold;
            put(&mut tools, &data, 6_000_000_000.0);
            tools.markers[0].reference = !smith;
            put(&mut tools, &data, 6_001_000_000.0);
            if format == "z" {
                tools.column = 1;
            }
            let controls = tools.controls_for_display(language, Some(&data), smith, true);
            assert_eq!(tools.trace_id, 42);
            assert_eq!(tools.target.label(language), language.text(Text::AnalysisHold));
            assert!(controls.can_center && controls.table && controls.ready);
            assert_eq!(controls.scalar, !smith);
            if smith {
                assert_eq!(controls.columns, 0);
                let near = away(&data, 6_000_000_000.0);
                assert!(matches!(
                    tools.smith_row(&data, number(6_000_000_000.0), &near),
                    Some(SmithRow::Reflection { .. })
                ));
            } else {
                let caption = column_label(format, tools.column, language);
                let expected = if format == "z" { "R (ohm)" } else { "s" };
                assert_eq!(caption, Caption::Literal(expected));
                let rows = tools.marker_table(&data, &marker_distances(&tools, &data));
                assert_eq!(rows[1].suffix(language), Some(language.text(Text::AnalysisDelta)));
            }
        }
    }
}

#[test]
fn controls_offer_only_what_the_sweep_carries() {
    let data = trace(&[3.0, 4.0, 5.0]);
    let mut tools = AnalysisTools::default();
    let empty = tools.controls_for_display(Language::English, None, false, true);
    assert!(!empty.usable && !empty.can_add && !empty.can_remove && !empty.table);
    let fresh = tools.controls_for_display(Language::English, Some(&data), false, true);
    assert!(fresh.usable && fresh.can_add && !fresh.can_remove && !fresh.table);
    see(&mut tools, &data);
    put(&mut tools, &data, 2e6);
    tools.markers[0].auto_peak = true;
    tools.column = 5;
    let full = tools.controls_for_display(Language::English, Some(&data), false, false);
    assert!(full.can_remove && full.table && full.ready && !full.can_center);
    assert_eq!(full.columns, 1);
    assert_eq!(tools.column, 0);
    assert_eq!(at(&tools, 0), 3e6);
    tools.set_column(Some(0));
    let fixed = tools.controls_for_display(Language::English, Some(&data), false, true);
    assert_eq!(fixed.columns, 0);
    tools.target = MarkerTarget::Hold;
    let missing = tools.controls_for_display(Language::English, Some(&data), false, true);
    assert!(missing.table && !missing.ready && !missing.can_center);
}

#[test]
fn choosing_targets_and_columns_moves_following_markers() {
    let mut data = trace(&[1.0, 5.0, 3.0]);
    data.mode = StreamMode::S11;
    data.format = "z".to_string();
    for (point, others) in data.points.iter_mut().zip([[9.0, 0.0], [2.0, 1.0], [4.0, 7.0]]) {
        point.values.extend(row(&others));
    }
    let mut tools = holding(true, false, false);
    see(&mut tools, &data);
    put(&mut tools, &data, 1e6);
    tools.set_auto_peak(true, &data);
    assert!(tools.markers[0].auto_peak);
    assert_eq!(at(&tools, 0), 2e6);
    tools.choose_column(1, &data);
    assert_eq!((tools.column, at(&tools, 0)), (1, 1e6));
    tools.choose_column(2, &data);
    assert_eq!((tools.column, at(&tools, 0)), (2, 3e6));
    tools.choose_target(MarkerTarget::Hold, Some(&data));
    assert_eq!(tools.target, MarkerTarget::Hold);
    tools.set_reference(true);
    assert!(tools.markers[0].reference);
    put(&mut tools, &data, 2e6);
    tools.select_marker(1);
    assert!(tools.markers[0].selected && !tools.markers[1].selected);
    tools.remove_selected();
    assert_eq!(tools.markers.len(), 1);
    assert_eq!((tools.markers[0].id, tools.markers[0].selected), (2, true));
    tools.clear_markers();
    assert!(tools.markers().is_empty());
}

#[test]
fn impedance_overlays_name_their_component() {
    assert_eq!(overlay_name(0, "z", 1, Language::English), Caption::Literal("Hold R"));
    assert_eq!(overlay_name(1, "z", 0, Language::English), Caption::Literal("Max |Z|"));
    assert_eq!(
        overlay_name(2, "ma", 0, Language::English),
        Language::English.text(Text::AnalysisMinHold)
    );
}

#[test]
fn stored_overlays_come_back_in_the_same_order() {
    let config = AnalysisConfig {
        overlay_visibility: vec![
            overlay("z", 1, 0, false),
            overlay("ma", 0, 1, true),
            overlay("z", 0, 2, true),
            overlay("z", 1, 0, true),
        ],
        ..Default::default()
    };
    let mut tools = AnalysisTools::default();
    tools.restore_config(&config);
    let stored = tools.config();
    assert_eq!(
        stored.overlay_visibility,
        [overlay("ma", 0, 1, true), overlay("z", 0, 2, true), overlay("z", 1, 0, true)]
    );
    let mut again = AnalysisTools::default();
    again.restore_config(&stored);
    assert_eq!(again.config(), stored);
}

#[test]
fn the_last_legend_that_holds_a_curve_decides() {
    let mut data = trace(&[3.0, 4.0, 5.0]);
    data.mode = StreamMode::S11;
    data.format = "z".to_string();
    for point in &mut data.points {
        point.values = row(&[50.0, 30.0, 40.0]);
    }
    let mut tools = holding(true, true, false);
    see(&mut tools, &data);
    let mut first = tools.overlay_series(&vec![0, 1]);
    assert!(first.iter().all(|series| series.visible));
    first[0].visible = false;
    first[3].visible = false;
    tools.apply_overlay_visibility(&first);
    let mut second = tools.overlay_series(&vec![1, 2]);
    assert_eq!(
        second.iter().map(|series| series.visible).collect::<Vec<bool>>(),
        [true, true, false, true]
    );
    second[2].visible = true;
    second[1].visible = false;
    tools.apply_overlay_visibility(&second);
    tools.set_language(Language::SimplifiedChinese);
    let mut other = trace(&[1.0, 2.0]);
    other.mode = StreamMode::S11;
    other.format = "ri".to_string();
    see(&mut tools, &other);
    assert!(tools.overlay_series(&vec![0]).iter().all(|series| series.visible));
    see(&mut tools, &data);
    let last = tools.overlay_series(&vec![2, 1, 0]);
    assert_eq!(
        last.iter().map(|series| series.visible).collect::<Vec<bool>>(),
        [false, true, false, true, true, true]
    );
}

#[test]
fn restoring_twice_changes_nothing_on_a_smith_chart() {
    let marker = |id: u32, reference: bool| Marker {
        id,
        frequency_hz: number(1e6),
        selected: false,
        reference,
        auto_peak: true,
    };
    let config = AnalysisConfig {
        markers: vec![marker(7, false), marker(2, true), marker(7, true), marker(0, false)],
        next_id: 3,
        column: 9,
        target: MarkerTarget::Minimum,
        overlay_visibility: vec![
            overlay("z", 2, 2, false),
            overlay("z", 2, 3, false),
            overlay("", 1, 0, true),
            overlay("z", 2, 2, true),
        ],
        ..Default::default()
    };
    for fixed in [None, Some(1)] {
        let mut tools = AnalysisTools::default();
        tools.set_smith(true);
        tools.set_column(fixed);
        tools.restore_config(&config);
        let saved = tools.config();
        assert_eq!(saved.markers.iter().map(|marker| marker.id).collect::<Vec<u32>>(), [7, 2]);
        assert!(saved.markers[0].selected && !saved.markers[1].selected);
        assert!(saved.markers.iter().all(|marker| !marker.reference && !marker.auto_peak));
        assert_eq!(saved.next_id, 7);
        assert_eq!(saved.column, fixed.unwrap_or(2));
        assert_eq!(saved.target, MarkerTarget::Current);
        assert_eq!(saved.overlay_visibility, [overlay("", 1, 0, true), overlay("z", 2, 2, true)]);
        tools.restore_config(&saved);
        assert_eq!(tools.config(), saved);
    }
}
