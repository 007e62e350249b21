//! Curves and layers of the charts, and what the user does with them.

use vstd::prelude::*;

use crate::acquisition::TraceId;
use crate::analysis_tools;
use crate::analysis_tools::{AnalysisTools, Color, Series, SeriesModel};
use crate::model::{copied, DataModel, PointModel, Real, StreamMode, SweepData};
use crate::text::{same_text, Caption, Language, Text};
use crate::workspace::{
    PlotView, S11Display, S21Display, TraceDisplay, TraceSettings, TraceState, Workspace,
};

verus! {

/// Colours of traces: those that settings name, and how each of them is drawn
/// on the current background.
#[derive(Debug)]
pub struct Palette {
    pub base: Vec<Color>,
    pub shown: Vec<Color>,
}

impl Palette {
    /// Every colour that settings name can be drawn, and there are enough for
    /// the three curves of an impedance.
    pub open spec fn wf(self) -> bool {
        self.base@.len() >= 3 && self.shown@.len() >= self.base@.len()
    }
}

/// How a colour is drawn. A colour of the user's own is drawn as it is.
pub open spec fn drawn_color(color: Color, palette: Palette) -> Color {
    if palette.base@.contains(color) {
        palette.shown@[palette.base@.index_of_first(color)->0]
    } else {
        color
    }
}

pub fn displayed_color(color: Color, palette: &Palette) -> (drawn: Color)
    requires
        palette.wf(),
    ensures
        drawn == drawn_color(color, *palette),
{
    let mut index: usize = 0;
    while index < palette.base.len()
        invariant
            palette.wf(),
            index <= palette.base@.len(),
            forall|i: int| 0 <= i < index ==> palette.base@[i] != color,
        decreases palette.base@.len() - index,
    {
        if palette.base[index] == color {
            proof {
                palette.base@.index_of_first_ensures(color);
                assert(palette.base@[index as int] == color);
                assert(palette.base@.index_of_first(color)->0 == index);
            }
            return palette.shown[index];
        }
        index = index + 1;
    }
    color
}

/// One column over the frequencies of a sweep.
pub open spec fn column_points(points: Seq<PointModel>, column: int) -> Seq<(Real, Real)> {
    Seq::new(
        points.len(),
        |i: int| (points[i].freq_hz, analysis_tools::reading_or_nan(points[i].values, column)),
    )
}

/// The curve of one column.
pub open spec fn curve(
    data: DataModel,
    name: Caption,
    column: int,
    color: Color,
    visible: bool,
) -> SeriesModel {
    SeriesModel { name, color, visible, points: column_points(data.points, column) }
}

fn column_series(data: &SweepData, name: Caption, column: usize, color: Color, visible: bool) -> (
    series: Series)
    ensures
        series@ == curve(data@, name, column as int, color, visible),
{
    let mut points: Vec<(Real, Real)> = Vec::new();
    let mut index: usize = 0;
    while index < data.points.len()
        invariant
            index <= data.points@.len(),
            points@.len() == index,
            forall|i: int|
                0 <= i < index ==> #[trigger] points@[i] == column_points(
                    data@.points,
                    column as int,
                )[i],
        decreases data.points@.len() - index,
    {
        let point = &data.points[index];
        assert(data@.points[index as int] == point@);
        let reading: Real = if column < point.values.len() {
            point.values[column]
        } else {
            Real { bits: 0x7ff8_0000_0000_0000 }
        };
        points.push((point.freq_hz, reading));
        index = index + 1;
    }
    assert(points@ =~= column_points(data@.points, column as int));
    Series { name, color, visible, points }
}

/// Curves of a reflection trace. Rows of another receiver or format have none.
pub open spec fn reflection_curves(
    display: S11Display,
    data: DataModel,
    visible: [bool; 3],
    language: Language,
    palette: Palette,
) -> Seq<SeriesModel> {
    let entry = |key: Text| Caption::Entry { language, key };
    let first = palette.base@[0];
    if !(data.mode is S11) || data.format != display.spec_wire_format().name() {
        seq![]
    } else {
        match display {
            S11Display::Phase => seq![curve(data, entry(Text::Phase), 1, first, true)],
            S11Display::ReturnLoss => seq![curve(data, entry(Text::ReturnLoss), 0, first, true)],
            S11Display::Vswr => seq![curve(data, entry(Text::Vswr), 0, first, true)],
            S11Display::Impedance => seq![
                curve(data, Caption::Literal("|Z|"), 0, first, visible[0]),
                curve(data, Caption::Literal("R"), 1, palette.base@[1], visible[1]),
                curve(data, Caption::Literal("X"), 2, palette.base@[2], visible[2]),
            ],
            S11Display::Magnitude => seq![curve(data, Caption::Literal("|Z|"), 0, first, true)],
            S11Display::Resistance => seq![curve(data, Caption::Literal("R"), 1, first, true)],
            S11Display::Reactance => seq![curve(data, Caption::Literal("X"), 2, first, true)],
            S11Display::Smith => seq![],
        }
    }
}

/// Curves of a reflection trace, from the columns of its wire format.
pub fn cartesian_series(
    display: S11Display,
    trace: Option<&SweepData>,
    impedance_visible: [bool; 3],
    language: Language,
    palette: &Palette,
) -> (series: Vec<Series>)
    requires
        palette.wf(),
    ensures
        analysis_tools::series_models(series@) == match trace {
            Some(data) => reflection_curves(display, data@, impedance_visible, language, *palette),
            None => seq![],
        },
{
    let mut series: Vec<Series> = Vec::new();
    let Some(data) = trace else {
        assert(analysis_tools::series_models(series@) =~= seq![]);
        return series;
    };
    let ghost model = reflection_curves(display, data@, impedance_visible, language, *palette);
    if data.mode != StreamMode::S11 || !same_text(
        data.format.as_str(),
        display.wire_format().as_str(),
    ) {
        assert(analysis_tools::series_models(series@) =~= seq![]);
        return series;
    }
    let first: Color = palette.base[0];
    match display {
        S11Display::Phase => {
            series.push(column_series(data, language.text(Text::Phase), 1, first, true));
        },
        S11Display::ReturnLoss => {
            series.push(column_series(data, language.text(Text::ReturnLoss), 0, first, true));
        },
        S11Display::Vswr => {
            series.push(column_series(data, language.text(Text::Vswr), 0, first, true));
        },
        S11Display::Impedance => {
            let second: Color = palette.base[1];
            let third: Color = palette.base[2];
            series.push(
                column_series(data, Caption::Literal("|Z|"), 0, first, impedance_visible[0]),
            );
            series.push(
                column_series(data, Caption::Literal("R"), 1, second, impedance_visible[1]),
            );
            series.push(column_series(data, Caption::Literal("X"), 2, third, impedance_visible[2]));
        },
        S11Display::Magnitude => {
            series.push(column_series(data, Caption::Literal("|Z|"), 0, first, true));
        },
        S11Display::Resistance => {
            series.push(column_series(data, Caption::Literal("R"), 1, first, true));
        },
        S11Display::Reactance => {
            series.push(column_series(data, Caption::Literal("X"), 2, first, true));
        },
        S11Display::Smith => {},
    }
    assert(analysis_tools::series_models(series@) =~= model);
    series
}

/// Curves of a trace before its colours are chosen.
pub open spec fn plain_curves(
    settings: TraceSettings,
    data: DataModel,
    language: Language,
    palette: Palette,
) -> Seq<SeriesModel> {
    match settings.display {
        TraceDisplay::Spec => seq![
            curve(
                data,
                Caption::Entry { language, key: Text::Level },
                0,
                settings.color,
                true,
            ),
        ],
        TraceDisplay::S11(display) => reflection_curves(
            display,
            data,
            settings.impedance_visible,
            language,
            palette,
        ),
        TraceDisplay::S21(display) => seq![
            curve(
                data,
                Caption::Entry { language, key: display.key() },
                settings.display.spec_columns()[0] as int,
                settings.color,
                true,
            ),
        ],
    }
}

/// Curves of a trace: the first in the trace's own colour, all as they are
/// drawn. Rows that the projection does not read have none.
pub open spec fn trace_curves(
    settings: TraceSettings,
    data: Option<DataModel>,
    language: Language,
    palette: Palette,
) -> Seq<SeriesModel> {
    if data is None || !settings.display.reads(data->0) {
        seq![]
    } else {
        let plain = plain_curves(settings, data->0, language, palette);
        Seq::new(
            plain.len(),
            |i: int|
                SeriesModel {
                    color: drawn_color(
                        if i == 0 {
                            settings.color
                        } else {
                            plain[i].color
                        },
                        palette,
                    ),
                    ..plain[i]
                },
        )
    }
}

pub fn trace_series(
    settings: &TraceSettings,
    data: Option<&SweepData>,
    language: Language,
    palette: &Palette,
) -> (series: Vec<Series>)
    requires
        palette.wf(),
    ensures
        analysis_tools::series_models(series@) == trace_curves(
            *settings,
            match data {
                Some(data) => Some(data@),
                None => None,
            },
            language,
            *palette,
        ),
{
    let mut series: Vec<Series> = Vec::new();
    let Some(data) = data else {
        assert(analysis_tools::series_models(series@) =~= seq![]);
        return series;
    };
    if !settings.display.accepts(data) {
        assert(analysis_tools::series_models(series@) =~= seq![]);
        return series;
    }
    match settings.display {
        TraceDisplay::Spec => {
            series.push(column_series(data, language.text(Text::Level), 0, settings.color, true));
        },
        TraceDisplay::S11(display) => {
            series =
            cartesian_series(display, Some(data), settings.impedance_visible, language, palette);
        },
        TraceDisplay::S21(display) => {
            let columns = settings.display.columns();
            series.push(
                column_series(data, display.label(language), columns[0], settings.color, true),
            );
        },
    }
    let ghost plain = plain_curves(*settings, data@, language, *palette);
    assert(analysis_tools::series_models(series@) =~= plain);
    assert forall|i: int| 0 <= i < plain.len() implies (#[trigger] series@[i])@ == plain[i] by {
        assert(analysis_tools::series_models(series@)[i] == series@[i]@);
    }
    let ghost model = trace_curves(*settings, Some(data@), language, *palette);
    let mut index: usize = 0;
    while index < series.len()
        invariant
            palette.wf(),
            index <= series@.len() == plain.len(),
            model == trace_curves(*settings, Some(data@), language, *palette),
            plain == plain_curves(*settings, data@, language, *palette),
            settings.display.reads(data@),
            forall|i: int|
                0 <= i < series@.len() ==> (#[trigger] series@[i])@ == if i < index {
                    model[i]
                } else {
                    plain[i]
                },
        decreases series@.len() - index,
    {
        let own: Color = if index == 0 {
            settings.color
        } else {
            series[index].color
        };
        series[index].color = displayed_color(own, palette);
        index = index + 1;
    }
    assert(analysis_tools::series_models(series@) =~= model);
    series
}

/// One trace as the plain chart draws it.
#[derive(Debug)]
pub struct Prepared {
    /// Place of the trace in the workspace.
    pub trace: usize,
    /// Number of curves that are the trace's own. The others are overlays.
    pub base_count: usize,
    /// Frequencies that its markers can take.
    pub markers: Vec<Real>,
    pub series: Vec<Series>,
    /// The curves of the last complete sweep.
    pub completed: Option<Vec<Series>>,
    /// Whether the vertical axis is to be fitted to the complete sweep.
    pub fit: bool,
}

/// Whether a trace is drawn on the plain chart.
pub open spec fn on_plain_chart(trace: TraceState) -> bool {
    trace.settings.visible && !trace.settings.display.smith()
}

/// Places of the traces among the first `count` that the plain chart draws.
pub open spec fn plain_places(traces: Seq<TraceState>, count: int) -> Seq<int>
    decreases count,
{
    if count <= 0 {
        seq![]
    } else if on_plain_chart(traces[count - 1]) {
        plain_places(traces, count - 1).push(count - 1)
    } else {
        plain_places(traces, count - 1)
    }
}

/// The plain chart draws each visible trace once, in the order of the list.
pub proof fn law_plain_places_ascend(traces: Seq<TraceState>, count: int)
    requires
        0 <= count <= traces.len(),
    ensures
        ({
            let places = plain_places(traces, count);
            &&& places.len() <= count
            &&& forall|k: int|
                0 <= k < places.len() ==> 0 <= (#[trigger] places[k]) < count && on_plain_chart(
                    traces[places[k]],
                )
            &&& forall|j: int, k: int|
                0 <= j < k < places.len() ==> (#[trigger] places[j]) < (#[trigger] places[k])
        }),
    decreases count,
{
    if count > 0 {
        law_plain_places_ascend(traces, count - 1);
    }
}

/// The overlays of an analysis, where they belong to what is drawn.
pub open spec fn overlay_curves(
    analysis: AnalysisTools,
    display: TraceDisplay,
    fits: bool,
    language: Language,
) -> Seq<SeriesModel> {
    let told = AnalysisTools { language, ..analysis };
    if fits && told.latest is Some {
        told.overlay_model(told.latest->0.data@, display.spec_columns())
    } else {
        seq![]
    }
}

/// Whether an analysis follows a language and remembers which overlays are
/// drawn.
pub open spec fn is_after_drawing(
    after: AnalysisTools,
    before: AnalysisTools,
    display: TraceDisplay,
    fits: bool,
    language: Language,
) -> bool {
    let told = AnalysisTools { language, ..before };
    &&& after == (AnalysisTools { rendered_overlays: after.rendered_overlays, ..told })
    &&& if !fits {
        after.rendered_overlays == before.rendered_overlays
    } else if before.latest is None {
        after.rendered_overlays@.len() == 0
    } else {
        analysis_tools::key_models(after.rendered_overlays@) == told.overlay_keys(
            before.latest->0.data@.format,
            display.spec_columns(),
        )
    }
}

/// Frequencies that the markers of a trace can take.
pub open spec fn marker_places(trace: TraceState) -> Seq<Real> {
    match trace.shown_sweep() {
        Some(complete) => if trace.overlays_fit() {
            let data = complete.data@;
            analysis_tools::markable(
                data.points,
                trace.analysis.target_model(data),
                trace.analysis.column as int,
                data.points.len() as int,
            )
        } else {
            seq![]
        },
        None => seq![],
    }
}

/// Whether this is how a trace is drawn, with `more` added to its own curves.
pub open spec fn is_drawn(
    prepared: Prepared,
    place: int,
    trace: TraceState,
    language: Language,
    palette: Palette,
    more: Seq<SeriesModel>,
) -> bool {
    let own = trace_curves(trace.settings, trace.shown_data(), language, palette);
    &&& prepared.trace == place
    &&& prepared.base_count == own.len()
    &&& analysis_tools::series_models(prepared.series@) == own + more
    &&& prepared.markers@ == marker_places(trace)
    &&& match prepared.completed {
        Some(series) => trace.shown_sweep() is Some && analysis_tools::series_models(series@)
            == trace_curves(
            trace.settings,
            Some(trace.shown_sweep()->0.data@),
            language,
            palette,
        ) + more,
        None => trace.shown_sweep() is None,
    }
    &&& prepared.fit == (trace.needs_fit && !trace.view_locked && trace.shown_sweep() is Some)
}

/// Whether this is how a trace is drawn: its own curves, then its overlays.
pub open spec fn is_prepared(
    prepared: Prepared,
    place: int,
    trace: TraceState,
    language: Language,
    palette: Palette,
) -> bool {
    is_drawn(
        prepared,
        place,
        trace,
        language,
        palette,
        overlay_curves(trace.analysis, trace.settings.display, trace.overlays_fit(), language),
    )
}

/// Whether this is a trace after it was prepared: it follows the language and
/// the common frequencies, remembers which overlays are drawn, and asks for no
/// fit that it is given.
pub open spec fn is_after_preparing(
    after: TraceState,
    before: TraceState,
    x_view: PlotView,
    language: Language,
) -> bool {
    &&& after == (TraceState {
        needs_fit: before.needs_fit && (before.view_locked || before.shown_sweep() is None),
        view: PlotView { x_min: x_view.x_min, x_max: x_view.x_max, ..before.view },
        analysis: after.analysis,
        ..before
    })
    &&& is_after_drawing(
        after.analysis,
        before.analysis,
        before.settings.display,
        before.overlays_fit(),
        language,
    )
}

fn copy_series(series: &Vec<Series>, from: usize) -> (copy: Vec<Series>)
    requires
        from <= series@.len(),
    ensures
        analysis_tools::series_models(copy@) == analysis_tools::series_models(series@).skip(
            from as int,
        ),
{
    let mut copy: Vec<Series> = Vec::new();
    let mut index: usize = from;
    while index < series.len()
        invariant
            from <= index <= series@.len(),
            copy@.len() == index - from,
            forall|i: int| 0 <= i < copy@.len() ==> (#[trigger] copy@[i])@ == series@[i + from]@,
        decreases series@.len() - index,
    {
        let curve = &series[index];
        copy.push(
            Series {
                name: curve.name,
                color: curve.color,
                visible: curve.visible,
                points: copied(&curve.points),
            },
        );
        index = index + 1;
    }
    assert(analysis_tools::series_models(copy@) =~= analysis_tools::series_models(series@).skip(
        from as int,
    ));
    copy
}

fn append_series(series: &mut Vec<Series>, more: &Vec<Series>)
    ensures
        analysis_tools::series_models(final(series)@) == analysis_tools::series_models(
            old(series)@,
        ) + analysis_tools::series_models(more@),
{
    let mut copy = copy_series(more, 0);
    let ghost added = copy@;
    assert(analysis_tools::series_models(added) =~= analysis_tools::series_models(more@));
    series.append(&mut copy);
    assert(series@ == old(series)@ + added);
    assert(analysis_tools::series_models(series@) =~= analysis_tools::series_models(old(series)@)
        + analysis_tools::series_models(added));
}

/// Draw the overlays of an analysis in a language, where they belong to what is
/// drawn.
fn draw_overlays(
    analysis: &mut AnalysisTools,
    display: TraceDisplay,
    compatible: bool,
    language: Language,
) -> (drawn: Vec<Series>)
    ensures
        is_after_drawing(*final(analysis), *old(analysis), display, compatible, language),
        analysis_tools::series_models(drawn@) == overlay_curves(
            *old(analysis),
            display,
            compatible,
            language,
        ),
{
    analysis.set_language(language);
    let mut drawn: Vec<Series> = Vec::new();
    if compatible {
        let columns = display.columns();
        drawn = analysis.overlay_series(&columns);
    }
    assert(drawn@.len() == 0 ==> analysis_tools::series_models(drawn@) =~= seq![]);
    drawn
}

/// Frequencies that the markers of a trace can take.
fn marker_grid(trace: &TraceState, compatible: bool) -> (markers: Vec<Real>)
    requires
        compatible == trace.overlays_fit(),
    ensures
        markers@ == marker_places(*trace),
{
    if compatible {
        if let Some(complete) = trace.completed_for_display() {
            return trace.analysis.marker_frequencies(&complete.data);
        }
    }
    let none: Vec<Real> = Vec::new();
    assert(none@ =~= seq![]);
    none
}

/// How a trace is drawn without its overlays.
fn draft(
    trace: &TraceState,
    place: usize,
    language: Language,
    palette: &Palette,
    compatible: bool,
) -> (prepared: Prepared)
    requires
        palette.wf(),
        compatible == trace.overlays_fit(),
    ensures
        is_drawn(prepared, place as int, *trace, language, *palette, seq![]),
{
    let markers = marker_grid(trace, compatible);
    let completed: Option<Vec<Series>> = match trace.completed_for_display() {
        Some(complete) => {
            let whole = trace_series(&trace.settings, Some(&complete.data), language, palette);
            assert(analysis_tools::series_models(whole@) + Seq::<SeriesModel>::empty()
                =~= analysis_tools::series_models(whole@));
            Some(whole)
        },
        None => None,
    };
    let series = trace_series(&trace.settings, trace.display_data(), language, palette);
    assert(analysis_tools::series_models(series@) + Seq::<SeriesModel>::empty()
        =~= analysis_tools::series_models(series@));
    let base_count: usize = series.len();
    let fit = trace.needs_fit && !trace.view_locked && completed.is_some();
    Prepared { trace: place, base_count, markers, series, completed, fit }
}

/// Add overlays to a drawing.
fn add_overlays(prepared: Prepared, drawn: &Vec<Series>) -> (whole: Prepared)
    ensures
        whole == (Prepared { series: whole.series, completed: whole.completed, ..prepared }),
        analysis_tools::series_models(whole.series@) == analysis_tools::series_models(
            prepared.series@,
        ) + analysis_tools::series_models(drawn@),
        match prepared.completed {
            Some(series) => whole.completed is Some && analysis_tools::series_models(
                whole.completed->0@,
            ) == analysis_tools::series_models(series@) + analysis_tools::series_models(drawn@),
            None => whole.completed is None,
        },
{
    let Prepared { trace, base_count, markers, series, completed, fit } = prepared;
    let mut series = series;
    append_series(&mut series, drawn);
    let completed: Option<Vec<Series>> = match completed {
        Some(curves) => {
            let mut curves = curves;
            append_series(&mut curves, drawn);
            Some(curves)
        },
        None => None,
    };
    Prepared { trace, base_count, markers, series, completed, fit }
}

proof fn lemma_overlays_added(
    before: Prepared,
    after: Prepared,
    place: int,
    trace: TraceState,
    language: Language,
    palette: Palette,
    more: Seq<SeriesModel>,
)
    requires
        is_drawn(before, place, trace, language, palette, seq![]),
        after == (Prepared { series: after.series, completed: after.completed, ..before }),
        analysis_tools::series_models(after.series@) == analysis_tools::series_models(
            before.series@,
        ) + more,
        match before.completed {
            Some(series) => after.completed is Some && analysis_tools::series_models(
                after.completed->0@,
            ) == analysis_tools::series_models(series@) + more,
            None => after.completed is None,
        },
    ensures
        is_drawn(after, place, trace, language, palette, more),
{
    let own = trace_curves(trace.settings, trace.shown_data(), language, palette);
    assert(own + Seq::<SeriesModel>::empty() =~= own);
    if let Some(complete) = trace.shown_sweep() {
        let whole = trace_curves(trace.settings, Some(complete.data@), language, palette);
        assert(whole + Seq::<SeriesModel>::empty() =~= whole);
    }
}

fn prepare_trace(
    trace: &mut TraceState,
    place: usize,
    x_view: PlotView,
    language: Language,
    palette: &Palette,
) -> (prepared: Prepared)
    requires
        palette.wf(),
    ensures
        is_prepared(prepared, place as int, *old(trace), language, *palette),
        is_after_preparing(*final(trace), *old(trace), x_view, language),
{
    let compatible = trace.overlays_compatible();
    let plain = draft(trace, place, language, palette, compatible);
    let fit = plain.fit;
    let ghost before = plain;
    let drawn = draw_overlays(&mut trace.analysis, trace.settings.display, compatible, language);
    let prepared = add_overlays(plain, &drawn);
    proof {
        lemma_overlays_added(
            before,
            prepared,
            place as int,
            *old(trace),
            language,
            *palette,
            analysis_tools::series_models(drawn@),
        );
    }
    trace.needs_fit = trace.needs_fit && !fit;
    trace.view.x_min = x_view.x_min;
    trace.view.x_max = x_view.x_max;
    prepared
}

/// Prepare the plain chart: all its traces share the frequencies of the
/// workspace, and only complete sweeps ask for a fit.
pub fn prepare_cartesian(workspace: &mut Workspace, language: Language, palette: &Palette) -> (
    prepared: Vec<Prepared>)
    requires
        palette.wf(),
    ensures
        ({
            let before = old(workspace).traces@;
            let after = final(workspace).traces@;
            let places = plain_places(before, before.len() as int);
            &&& *final(workspace) == (Workspace {
                traces: final(workspace).traces,
                ..*old(workspace)
            })
            &&& after.len() == before.len()
            &&& forall|i: int|
                #![trigger after[i]]
                0 <= i < before.len() ==> if on_plain_chart(before[i]) {
                    is_after_preparing(after[i], before[i], old(workspace).x_view, language)
                } else {
                    after[i] == before[i]
                }
            &&& prepared@.len() == places.len()
            &&& forall|k: int|
                0 <= k < places.len() ==> is_prepared(
                    #[trigger] prepared@[k],
                    places[k],
                    before[places[k]],
                    language,
                    *palette,
                )
        }),
{
    let x_view: PlotView = workspace.x_view;
    let ghost before = workspace.traces@;
    let mut prepared: Vec<Prepared> = Vec::new();
    let mut index: usize = 0;
    let ghost mut places = plain_places(before, 0);
    while index < workspace.traces.len()
        invariant
            palette.wf(),
            before == old(workspace).traces@,
            index <= workspace.traces@.len() == before.len(),
            x_view == old(workspace).x_view,
            *workspace == (Workspace { traces: workspace.traces, ..*old(workspace) }),
            places == plain_places(before, index as int),
            prepared@.len() == places.len(),
            forall|k: int|
                0 <= k < places.len() ==> is_prepared(
                    #[trigger] prepared@[k],
                    places[k],
                    before[places[k]],
                    language,
                    *palette,
                ),
            forall|i: int|
                #![trigger workspace.traces@[i]]
                0 <= i < before.len() ==> if i < index && on_plain_chart(before[i]) {
                    is_after_preparing(workspace.traces@[i], before[i], x_view, language)
                } else {
                    workspace.traces@[i] == before[i]
                },
        decreases before.len() - index,
    {
        let ghost earlier = workspace.traces@;
        let ghost old_places = places;
        let ghost old_prepared = prepared@;
        assert(workspace.traces@[index as int] == before[index as int]);
        proof {
            places = plain_places(before, index + 1);
        }
        if workspace.traces[index].settings.visible
            && !workspace.traces[index].settings.display.is_smith() {
            let entry = prepare_trace(&mut workspace.traces[index], index, x_view, language, palette);
            prepared.push(entry);
            assert forall|k: int| 0 <= k < places.len() implies is_prepared(
                #[trigger] prepared@[k],
                places[k],
                before[places[k]],
                language,
                *palette,
            ) by {
                if k < old_places.len() {
                    assert(prepared@[k] == old_prepared[k]);
                    assert(places[k] == old_places[k]);
                }
            }
            assert forall|i: int| 0 <= i < before.len() && i != index implies #[trigger] workspace.traces@[i]
                == earlier[i] by {}
        }
        index = index + 1;
    }
    prepared
}

/// What the user did with the scale of a layer.
#[derive(Debug, Clone, Copy, PartialEq, Eq, Structural)]
pub enum ViewLock {
    Unchanged,
    Locked,
    Unlocked,
}

/// What became of one layer of the plain chart.
#[derive(Debug)]
pub struct LayerOutcome {
    pub lock: ViewLock,
    /// The view of a reset and fitted trace.
    pub refit: PlotView,
    /// The curves with the user's choice of what is visible.
    pub series: Vec<Series>,
}

/// What became of the plain chart.
#[derive(Debug)]
pub struct PlotOutcome {
    pub activated: Option<TraceId>,
    /// Frequencies that the first layer shows now.
    pub x_view: (Real, Real),
    /// One entry for each prepared trace.
    pub layers: Vec<LayerOutcome>,
}

/// Frequencies of the last layer among the first `count` that was unlocked.
pub open spec fn reset_of(layers: Seq<LayerOutcome>, count: int) -> Option<(Real, Real)>
    decreases count,
{
    if count <= 0 {
        None
    } else if layers[count - 1].lock is Unlocked {
        Some((layers[count - 1].refit.x_min, layers[count - 1].refit.x_max))
    } else {
        reset_of(layers, count - 1)
    }
}

/// Settings of a trace after the user hid or showed some of its own curves.
pub open spec fn settings_after(settings: TraceSettings, base_count: int, series: Seq<Series>) -> TraceSettings {
    if settings.display == TraceDisplay::S11(S11Display::Impedance) && base_count == 3 {
        TraceSettings {
            impedance_visible: [series[0].visible, series[1].visible, series[2].visible],
            ..settings
        }
    } else if base_count == 1 {
        TraceSettings { visible: series[0].visible, ..settings }
    } else {
        settings
    }
}

/// Whether this is a trace after its layer was drawn and used. Unlocking a view
/// resets and fits it. Other curves of an impedance ask for a fit.
pub open spec fn is_after_layer(
    after: TraceState,
    before: TraceState,
    base_count: int,
    layer: LayerOutcome,
) -> bool {
    let settings = settings_after(before.settings, base_count, layer.series@);
    let curves = analysis_tools::series_models(layer.series@).skip(base_count);
    let keys = analysis_tools::key_models(before.analysis.rendered_overlays@);
    &&& after == (TraceState {
        settings: after.settings,
        view_locked: match layer.lock {
            ViewLock::Unchanged => before.view_locked,
            ViewLock::Locked => true,
            ViewLock::Unlocked => false,
        },
        view: if layer.lock is Unlocked {
            layer.refit
        } else {
            before.view
        },
        needs_fit: if settings.impedance_visible@ != before.settings.impedance_visible@ {
            true
        } else {
            before.needs_fit && !(layer.lock is Unlocked)
        },
        analysis: after.analysis,
        ..before
    })
    &&& after.settings.impedance_visible@ == settings.impedance_visible@
    &&& after.settings == (TraceSettings {
        impedance_visible: after.settings.impedance_visible,
        ..settings
    })
    &&& after.analysis == (AnalysisTools {
        overlay_visibility: after.analysis.overlay_visibility,
        ..before.analysis
    })
    &&& after.analysis.wf()
    &&& analysis_tools::entry_models(after.analysis.overlay_visibility@) == analysis_tools::applied(
        analysis_tools::entry_models(before.analysis.overlay_visibility@),
        keys,
        curves,
        if curves.len() < keys.len() {
            curves.len() as int
        } else {
            keys.len() as int
        },
    )
}

/// Settings after the user hid or showed some curves, and whether other curves
/// of an impedance are shown.
fn shown_settings(settings: &TraceSettings, base_count: usize, series: &Vec<Series>) -> (result: (
    TraceSettings,
    bool,
))
    requires
        base_count <= series@.len(),
    ensures
        ({
            let after = settings_after(*settings, base_count as int, series@);
            &&& result.0.impedance_visible@ == after.impedance_visible@
            &&& result.0 == (TraceSettings {
                impedance_visible: result.0.impedance_visible,
                ..after
            })
            &&& result.1 == (after.impedance_visible@ != settings.impedance_visible@)
        }),
{
    let mut after: TraceSettings = *settings;
    let impedance = matches!(settings.display, TraceDisplay::S11(S11Display::Impedance));
    if impedance && base_count == 3 {
        let shown: [bool; 3] = [series[0].visible, series[1].visible, series[2].visible];
        let known: [bool; 3] = settings.impedance_visible;
        let same = shown[0] == known[0] && shown[1] == known[1] && shown[2] == known[2];
        assert(same ==> shown@ =~= known@);
        after.impedance_visible = shown;
        return (after, !same);
    }
    if base_count == 1 {
        after.visible = series[0].visible;
    }
    (after, false)
}

fn use_layer(trace: &mut TraceState, base_count: usize, layer: &LayerOutcome)
    requires
        old(trace).analysis.wf(),
        base_count <= layer.series@.len(),
    ensures
        is_after_layer(*final(trace), *old(trace), base_count as int, *layer),
{
    let (settings, changed) = shown_settings(&trace.settings, base_count, &layer.series);
    let unlocked = layer.lock == ViewLock::Unlocked;
    let curves = copy_series(&layer.series, base_count);
    trace.view_locked = match layer.lock {
        ViewLock::Unchanged => trace.view_locked,
        ViewLock::Locked => true,
        ViewLock::Unlocked => false,
    };
    trace.view = if unlocked {
        layer.refit
    } else {
        trace.view
    };
    trace.needs_fit = changed || (trace.needs_fit && !unlocked);
    trace.settings = settings;
    trace.analysis.apply_overlay_visibility(&curves);
}

/// The view with other frequencies, if any.
pub open spec fn with_x(view: PlotView, x: Option<(Real, Real)>) -> PlotView {
    match x {
        Some((low, high)) => PlotView { x_min: low, x_max: high, ..view },
        None => view,
    }
}

/// Take over what the user did with the plain chart. The charts share their
/// frequencies: a reset of one resets them for all.
pub fn use_cartesian(workspace: &mut Workspace, prepared: &Vec<Prepared>, outcome: &PlotOutcome)
    requires
        outcome.layers@.len() == prepared@.len(),
        forall|k: int|
            0 <= k < prepared@.len() ==> (#[trigger] prepared@[k]).trace < old(workspace).traces@.len() && prepared@[k].base_count <= outcome.layers@[k].series@.len(),
        forall|j: int, k: int|
            0 <= j < k < prepared@.len() ==> (#[trigger] prepared@[j]).trace < (
            #[trigger] prepared@[k]).trace,
        forall|i: int|
            0 <= i < old(workspace).traces@.len() ==> (
            #[trigger] old(workspace).traces@[i]).analysis.wf(),
    ensures
        ({
            let before = old(workspace).traces@;
            let after = final(workspace).traces@;
            let reset = reset_of(outcome.layers@, outcome.layers@.len() as int);
            &&& *final(workspace) == (Workspace {
                traces: final(workspace).traces,
                selected: if outcome.activated is Some {
                    outcome.activated
                } else {
                    old(workspace).selected
                },
                x_view: with_x(
                    if prepared@.len() > 0 {
                        with_x(old(workspace).x_view, Some(outcome.x_view))
                    } else {
                        old(workspace).x_view
                    },
                    reset,
                ),
                ..*old(workspace)
            })
            &&& after.len() == before.len()
            &&& forall|i: int|
                #![trigger after[i]]
                0 <= i < before.len() && !in_layers(prepared@, i) ==> after[i] == (TraceState {
                    view: with_x(before[i].view, reset),
                    ..before[i]
                })
            &&& forall|k: int|
                #![trigger prepared@[k]]
                0 <= k < prepared@.len() ==> {
                    let place = prepared@[k].trace as int;
                    exists|drawn: TraceState|
                        {
                            &&& #[trigger] is_after_layer(
                                drawn,
                                before[place],
                                prepared@[k].base_count as int,
                                outcome.layers@[k],
                            )
                            &&& after[place] == (TraceState {
                                view: with_x(drawn.view, reset),
                                ..drawn
                            })
                        }
                }
        }),
{
    let ghost before = workspace.traces@;
    if prepared.len() > 0 {
        workspace.x_view.x_min = outcome.x_view.0;
        workspace.x_view.x_max = outcome.x_view.1;
    }
    if outcome.activated.is_some() {
        workspace.selected = outcome.activated;
    }
    let ghost framed = *workspace;
    let mut reset: Option<(Real, Real)> = None;
    let mut layer: usize = 0;
    while layer < prepared.len()
        invariant
            layer <= prepared@.len() == outcome.layers@.len(),
            workspace.traces@.len() == before.len(),
            *workspace == (Workspace { traces: workspace.traces, ..framed }),
            reset == reset_of(outcome.layers@, layer as int),
            forall|k: int|
                0 <= k < prepared@.len() ==> (#[trigger] prepared@[k]).trace < before.len()
                    && prepared@[k].base_count <= outcome.layers@[k].series@.len(),
            forall|j: int, k: int|
                0 <= j < k < prepared@.len() ==> (#[trigger] prepared@[j]).trace < (
                #[trigger] prepared@[k]).trace,
            forall|i: int| 0 <= i < before.len() ==> (#[trigger] before[i]).analysis.wf(),
            forall|i: int|
                #![trigger workspace.traces@[i]]
                0 <= i < before.len() && !in_layers(prepared@.take(layer as int), i)
                    ==> workspace.traces@[i] == before[i],
            forall|k: int|
                #![trigger prepared@[k]]
                0 <= k < layer ==> is_after_layer(
                    workspace.traces@[prepared@[k].trace as int],
                    before[prepared@[k].trace as int],
                    prepared@[k].base_count as int,
                    outcome.layers@[k],
                ),
        decreases prepared@.len() - layer,
    {
        let place: usize = prepared[layer].trace;
        let ghost earlier = workspace.traces@;
        assert(!in_layers(prepared@.take(layer as int), place as int)) by {
            if in_layers(prepared@.take(layer as int), place as int) {
                let k = choose|k: int|
                    0 <= k < layer && (#[trigger] prepared@.take(layer as int)[k]).trace == place;
                assert(prepared@[k].trace < prepared@[layer as int].trace);
            }
        }
        assert(workspace.traces@[place as int] == before[place as int]);
        use_layer(
            &mut workspace.traces[place],
            prepared[layer].base_count,
            &outcome.layers[layer],
        );
        if outcome.layers[layer].lock == ViewLock::Unlocked {
            let view: PlotView = outcome.layers[layer].refit;
            reset = Some((view.x_min, view.x_max));
        }
        assert forall|i: int| 0 <= i < before.len() && i != place implies #[trigger] workspace.traces@[i]
            == earlier[i] by {}
        assert forall|i: int|
            #![trigger workspace.traces@[i]]
            0 <= i < before.len() && !in_layers(
                prepared@.take(layer + 1),
                i,
            ) implies workspace.traces@[i] == before[i] by {
            assert(prepared@.take(layer + 1)[layer as int].trace == place);
            if in_layers(prepared@.take(layer as int), i) {
                let k = choose|k: int|
                    0 <= k < layer && (#[trigger] prepared@.take(layer as int)[k]).trace == i;
                assert(prepared@.take(layer + 1)[k].trace == i);
            }
        }
        assert forall|k: int|
            #![trigger prepared@[k]]
            0 <= k < layer + 1 implies is_after_layer(
            workspace.traces@[prepared@[k].trace as int],
            before[prepared@[k].trace as int],
            prepared@[k].base_count as int,
            outcome.layers@[k],
        ) by {
            if k < layer {
                assert(prepared@[k].trace < prepared@[layer as int].trace);
            }
        }
        layer = layer + 1;
    }
    assert(prepared@.take(layer as int) =~= prepared@);
    let ghost drawn = workspace.traces@;
    if let Some((low, high)) = reset {
        workspace.x_view.x_min = low;
        workspace.x_view.x_max = high;
        let ghost settled = *workspace;
        let mut index: usize = 0;
        while index < workspace.traces.len()
            invariant
                index <= workspace.traces@.len() == drawn.len(),
                reset == Some((low, high)),
                *workspace == (Workspace { traces: workspace.traces, ..settled }),
                forall|i: int|
                    0 <= i < drawn.len() ==> #[trigger] workspace.traces@[i] == if i < index {
                        TraceState { view: with_x(drawn[i].view, reset), ..drawn[i] }
                    } else {
                        drawn[i]
                    },
            decreases drawn.len() - index,
        {
            workspace.traces[index].view.x_min = low;
            workspace.traces[index].view.x_max = high;
            index = index + 1;
        }
    }
    assert forall|i: int| 0 <= i < drawn.len() implies #[trigger] workspace.traces@[i] == (
    TraceState { view: with_x(drawn[i].view, reset), ..drawn[i] }) by {}
    assert forall|k: int|
        #![trigger prepared@[k]]
        0 <= k < prepared@.len() implies ({
        let place = prepared@[k].trace as int;
        exists|one: TraceState|
            {
                &&& #[trigger] is_after_layer(
                    one,
                    before[place],
                    prepared@[k].base_count as int,
                    outcome.layers@[k],
                )
                &&& workspace.traces@[place] == (TraceState {
                    view: with_x(one.view, reset),
                    ..one
                })
            }
    }) by {
        let place = prepared@[k].trace as int;
        assert(is_after_layer(
            drawn[place],
            before[place],
            prepared@[k].base_count as int,
            outcome.layers@[k],
        ));
    }
}

/// Whether a trace is among the prepared ones.
pub open spec fn in_layers(prepared: Seq<Prepared>, place: int) -> bool {
    exists|k: int| 0 <= k < prepared.len() && (#[trigger] prepared[k]).trace == place
}

/// Take over the view that fits a trace's complete sweep. A fit moves the
/// vertical axis alone.
pub fn take_fit(trace: &mut TraceState, fitted: PlotView)
    ensures
        *final(trace) == (TraceState {
            view: PlotView {
                x_min: old(trace).view.x_min,
                x_max: old(trace).view.x_max,
                ..fitted
            },
            ..*old(trace)
        }),
{
    let x_min: Real = trace.view.x_min;
    let x_max: Real = trace.view.x_max;
    trace.view = fitted;
    trace.view.x_min = x_min;
    trace.view.x_max = x_max;
}

/// One trace as the Smith chart draws it.
#[derive(Debug)]
pub struct SmithLayer {
    /// Place of the trace in the workspace.
    pub trace: usize,
    pub data: Option<SweepData>,
    pub held: Option<SweepData>,
    pub marker_data: Option<SweepData>,
    pub color: Color,
}

/// Whether a trace is drawn on the Smith chart.
pub open spec fn on_smith_chart(trace: TraceState) -> bool {
    trace.settings.visible && trace.settings.display.smith()
}

/// Places of the traces among the first `count` that the Smith chart draws and
/// that are, or are not, selected.
pub open spec fn smith_places(
    traces: Seq<TraceState>,
    selected: Option<TraceId>,
    chosen: bool,
    count: int,
) -> Seq<int>
    decreases count,
{
    if count <= 0 {
        seq![]
    } else if on_smith_chart(traces[count - 1]) && (selected == Some(traces[count - 1].id))
        == chosen {
        smith_places(traces, selected, chosen, count - 1).push(count - 1)
    } else {
        smith_places(traces, selected, chosen, count - 1)
    }
}

/// Whether this is how a trace is drawn on the Smith chart. Held rows and
/// markers are shown where they belong to what is drawn.
pub open spec fn is_smith_layer(
    layer: SmithLayer,
    place: int,
    trace: TraceState,
    palette: Palette,
) -> bool {
    &&& layer.trace == place
    &&& analysis_tools::data_model(layer.data) == trace.shown_data()
    &&& analysis_tools::data_model(layer.held) == if trace.overlays_fit() {
        trace.analysis.held_model()
    } else {
        None
    }
    &&& analysis_tools::data_model(layer.marker_data) == if trace.overlays_fit() {
        trace.analysis.marker_model()
    } else {
        None
    }
    &&& layer.color == drawn_color(trace.settings.color, palette)
}

fn smith_layer(trace: &TraceState, place: usize, palette: &Palette) -> (layer: SmithLayer)
    requires
        palette.wf(),
    ensures
        is_smith_layer(layer, place as int, *trace, *palette),
{
    let compatible = trace.overlays_compatible();
    let data: Option<SweepData> = match trace.display_data() {
        Some(data) => Some(analysis_tools::copy_data(data)),
        None => None,
    };
    let held: Option<SweepData> = if compatible {
        trace.analysis.held_trace()
    } else {
        None
    };
    let marker_data: Option<SweepData> = if compatible {
        trace.analysis.marker_trace()
    } else {
        None
    };
    SmithLayer {
        trace: place,
        data,
        held,
        marker_data,
        color: displayed_color(trace.settings.color, palette),
    }
}

fn push_smith_layers(
    workspace: &Workspace,
    palette: &Palette,
    chosen: bool,
    layers: &mut Vec<SmithLayer>,
)
    requires
        palette.wf(),
    ensures
        ({
            let places = smith_places(
                workspace.traces@,
                workspace.selected,
                chosen,
                workspace.traces@.len() as int,
            );
            let before = old(layers)@;
            let after = final(layers)@;
            &&& after.len() == before.len() + places.len()
            &&& forall|i: int| 0 <= i < before.len() ==> #[trigger] after[i] == before[i]
            &&& forall|i: int|
                before.len() <= i < after.len() ==> is_smith_layer(
                    #[trigger] after[i],
                    places[i - before.len()],
                    workspace.traces@[places[i - before.len()]],
                    *palette,
                )
        }),
{
    let ghost before = layers@;
    let ghost traces = workspace.traces@;
    let ghost mut places = smith_places(traces, workspace.selected, chosen, 0);
    let mut index: usize = 0;
    while index < workspace.traces.len()
        invariant
            palette.wf(),
            traces == workspace.traces@,
            index <= traces.len(),
            places == smith_places(traces, workspace.selected, chosen, index as int),
            layers@.len() == before.len() + places.len(),
            forall|i: int| 0 <= i < before.len() ==> #[trigger] layers@[i] == before[i],
            forall|i: int|
                before.len() <= i < layers@.len() ==> is_smith_layer(
                    #[trigger] layers@[i],
                    places[i - before.len()],
                    traces[places[i - before.len()]],
                    *palette,
                ),
        decreases traces.len() - index,
    {
        let trace = &workspace.traces[index];
        let selected = workspace.selected == Some(trace.id);
        let ghost old_places = places;
        let ghost old_layers = layers@;
        proof {
            places = smith_places(traces, workspace.selected, chosen, index + 1);
        }
        if trace.settings.visible && trace.settings.display.is_smith() && selected == chosen {
            layers.push(smith_layer(trace, index, palette));
            assert forall|i: int| before.len() <= i < layers@.len() implies is_smith_layer(
                #[trigger] layers@[i],
                places[i - before.len()],
                traces[places[i - before.len()]],
                *palette,
            ) by {
                if i < old_layers.len() {
                    assert(layers@[i] == old_layers[i]);
                    assert(places[i - before.len()] == old_places[i - before.len()]);
                }
            }
        }
        index = index + 1;
    }
}

/// The layers of the Smith chart in the order in which they are drawn: the
/// selected trace comes last, on top of the others.
pub fn smith_layers(workspace: &Workspace, palette: &Palette) -> (layers: Vec<SmithLayer>)
    requires
        palette.wf(),
    ensures
        ({
            let traces = workspace.traces@;
            let places = smith_places(traces, workspace.selected, false, traces.len() as int)
                + smith_places(traces, workspace.selected, true, traces.len() as int);
            &&& layers@.len() == places.len()
            &&& forall|k: int|
                0 <= k < places.len() ==> is_smith_layer(
                    #[trigger] layers@[k],
                    places[k],
                    traces[places[k]],
                    *palette,
                )
        }),
{
    let mut layers: Vec<SmithLayer> = Vec::new();
    push_smith_layers(workspace, palette, false, &mut layers);
    let ghost first = layers@;
    push_smith_layers(workspace, palette, true, &mut layers);
    proof {
        let traces = workspace.traces@;
        let below = smith_places(traces, workspace.selected, false, traces.len() as int);
        let above = smith_places(traces, workspace.selected, true, traces.len() as int);
        assert forall|k: int| 0 <= k < (below + above).len() implies is_smith_layer(
            #[trigger] layers@[k],
            (below + above)[k],
            traces[(below + above)[k]],
            *palette,
        ) by {
            if k < below.len() {
                assert(layers@[k] == first[k]);
                assert((below + above)[k] == below[k]);
            } else {
                assert((below + above)[k] == above[k - below.len()]);
            }
        }
    }
    layers
}

/// Select the trace that the user activated on a chart.
pub fn activate(workspace: &mut Workspace, activated: Option<TraceId>)
    ensures
        *final(workspace) == (Workspace {
            selected: if activated is Some {
                activated
            } else {
                old(workspace).selected
            },
            ..*old(workspace)
        }),
{
    if activated.is_some() {
        workspace.selected = activated;
    }
}

/// Changing the language changes names alone: curves keep their readings, their
/// colours and what is visible.
pub proof fn law_translation_keeps_curves(
    settings: TraceSettings,
    data: DataModel,
    a: Language,
    b: Language,
    palette: Palette,
    index: int,
)
    requires
        0 <= index < trace_curves(settings, Some(data), a, palette).len(),
    ensures
        trace_curves(settings, Some(data), b, palette).len() == trace_curves(
            settings,
            Some(data),
            a,
            palette,
        ).len(),
        ({
            let first = trace_curves(settings, Some(data), a, palette)[index];
            let second = trace_curves(settings, Some(data), b, palette)[index];
            &&& second.points == first.points
            &&& second.color == first.color
            &&& second.visible == first.visible
        }),
{
}

/// Rows of another receiver or another wire format are never drawn.
pub proof fn law_foreign_rows_are_not_drawn(
    settings: TraceSettings,
    data: DataModel,
    language: Language,
    palette: Palette,
)
    requires
        !settings.display.reads(data),
    ensures
        trace_curves(settings, Some(data), language, palette).len() == 0,
{
}

/// Whether a curve shows one raw column of a sweep: a point for every row, at
/// the row's frequency, with the reading that stands in that column.
pub open spec fn shows_column(curve: Series, data: SweepData, column: int) -> bool {
    &&& curve.points@.len() == data.points@.len()
    &&& forall|i: int|
        0 <= i < data.points@.len() ==> (#[trigger] curve.points@[i]).0 == data.points@[i].freq_hz
            && (column < data.points@[i].values@.len() ==> curve.points@[i].1
            == data.points@[i].values@[column])
}

proof fn lemma_curve_models(series: Seq<Series>, models: Seq<SeriesModel>)
    requires
        analysis_tools::series_models(series) == models,
    ensures
        series.len() == models.len(),
        forall|k: int|
            0 <= k < series.len() ==> (#[trigger] series[k]).name == models[k].name
                && series[k].color == models[k].color && series[k].visible == models[k].visible
                && series[k].points@ == models[k].points,
{
    assert forall|k: int| 0 <= k < series.len() implies (#[trigger] series[k])@ == models[k] by {
        assert(analysis_tools::series_models(series)[k] == series[k]@);
    }
}

proof fn lemma_shows_column(series: Series, data: SweepData, model: SeriesModel, column: int)
    requires
        series@ == model,
        model.points == column_points(data@.points, column),
        0 <= column,
    ensures
        shows_column(series, data, column),
{
    assert forall|i: int| 0 <= i < data.points@.len() implies (#[trigger] series.points@[i]).0
        == data.points@[i].freq_hz && (column < data.points@[i].values@.len() ==> series.points@[i].1
        == data.points@[i].values@[column]) by {
        assert(data@.points[i] == data.points@[i]@);
    }
}

/// An impedance has three curves. In the row of magnitude, resistance and
/// reactance, the one called |Z| shows the first value, R the second and X the
/// third, each in a colour and with a switch of its own.
pub proof fn law_impedances_show_magnitude_resistance_and_reactance(
    data: &SweepData,
    visible: [bool; 3],
    language: Language,
    palette: &Palette,
    series: Vec<Series>,
)
    requires
        palette.wf(),
        data.mode is S11,
        data.format@ == "z"@,
        call_ensures(
            cartesian_series,
            (S11Display::Impedance, Some(data), visible, language, palette),
            series,
        ),
    ensures
        series@.len() == 3,
        series@[0].name == Caption::Literal("|Z|"),
        series@[1].name == Caption::Literal("R"),
        series@[2].name == Caption::Literal("X"),
        shows_column(series@[0], *data, 0),
        shows_column(series@[1], *data, 1),
        shows_column(series@[2], *data, 2),
        forall|k: int|
            0 <= k < 3 ==> (#[trigger] series@[k]).visible == visible[k] && series@[k].color
                == palette.base@[k],
{
    let models = reflection_curves(S11Display::Impedance, data@, visible, language, *palette);
    lemma_curve_models(series@, models);
    lemma_shows_column(series@[0], *data, models[0], 0);
    lemma_shows_column(series@[1], *data, models[1], 1);
    lemma_shows_column(series@[2], *data, models[2], 2);
}

/// Every other reflection view has one curve, which is always shown and shows
/// the quantity that it is named after: of a row of magnitude and angle the
/// angle, of a row of magnitude, resistance and reactance the one that was asked
/// for, and of a row with a single value that value. The Smith chart has none.
pub proof fn law_reflections_show_their_quantity(
    display: S11Display,
    data: &SweepData,
    visible: [bool; 3],
    language: Language,
    palette: &Palette,
    series: Vec<Series>,
)
    requires
        palette.wf(),
        data.mode is S11,
        !(display is Impedance),
        call_ensures(cartesian_series, (display, Some(data), visible, language, palette), series),
    ensures
        series@.len() <= 1,
        display is Smith ==> series@.len() == 0,
        series@.len() == 1 ==> series@[0].visible && series@[0].color == palette.base@[0],
        display is Phase && data.format@ == "ma"@ ==> series@.len() == 1 && series@[0].name == (
        Caption::Entry { language, key: Text::Phase }) && shows_column(series@[0], *data, 1),
        display is ReturnLoss && data.format@ == "loss"@ ==> series@.len() == 1
            && series@[0].name == (Caption::Entry { language, key: Text::ReturnLoss })
            && shows_column(series@[0], *data, 0),
        display is Vswr && data.format@ == "vswr"@ ==> series@.len() == 1 && series@[0].name == (
        Caption::Entry { language, key: Text::Vswr }) && shows_column(series@[0], *data, 0),
        display is Magnitude && data.format@ == "z"@ ==> series@.len() == 1 && series@[0].name
            == Caption::Literal("|Z|") && shows_column(series@[0], *data, 0),
        display is Resistance && data.format@ == "z"@ ==> series@.len() == 1 && series@[0].name
            == Caption::Literal("R") && shows_column(series@[0], *data, 1),
        display is Reactance && data.format@ == "z"@ ==> series@.len() == 1 && series@[0].name
            == Caption::Literal("X") && shows_column(series@[0], *data, 2),
{
    let models = reflection_curves(display, data@, visible, language, *palette);
    lemma_curve_models(series@, models);
    if series@.len() == 1 {
        let column: int = if display is Phase || display is Resistance {
            1
        } else if display is Reactance {
            2
        } else {
            0
        };
        lemma_shows_column(series@[0], *data, models[0], column);
    }
}

/// Rows of another receiver, or of another quantity than the view shows, have no
/// curves, and neither has a view without rows.
pub proof fn law_reflections_show_nothing_else(
    display: S11Display,
    data: &SweepData,
    visible: [bool; 3],
    language: Language,
    palette: &Palette,
    series: Vec<Series>,
    none: Vec<Series>,
)
    requires
        palette.wf(),
        call_ensures(cartesian_series, (display, Some(data), visible, language, palette), series),
        call_ensures(
            cartesian_series,
            (display, None::<&SweepData>, visible, language, palette),
            none,
        ),
    ensures
        none@.len() == 0,
        series@.len() > 0 ==> data.mode is S11 && match display {
            S11Display::Phase => data.format@ == "ma"@,
            S11Display::ReturnLoss => data.format@ == "loss"@,
            S11Display::Vswr => data.format@ == "vswr"@,
            S11Display::Smith => false,
            _ => data.format@ == "z"@,
        },
{
    lemma_curve_models(
        series@,
        reflection_curves(display, data@, visible, language, *palette),
    );
    lemma_curve_models(none@, seq![]);
}

/// Whether a palette lists a colour in this place and in none before.
pub open spec fn is_first_place(palette: Palette, place: int, color: Color) -> bool {
    &&& 0 <= place < palette.base@.len()
    &&& palette.base@[place] == color
    &&& forall|i: int| 0 <= i < place ==> palette.base@[i] != color
}

proof fn lemma_first_place(palette: Palette, place: int, color: Color)
    ensures
        is_first_place(palette, place, color) ==> drawn_color(color, palette)
            == palette.shown@[place],
{
    if is_first_place(palette, place, color) {
        palette.base@.index_of_first_ensures(color);
    }
}

/// A trace draws the curves of its view: a spectrum its level, a transmission
/// the angle, the loss or the delay, and a reflection what its view shows. The
/// first curve has the trace's own colour, and where a colour of the palette is
/// drawn otherwise on the present background, so is the curve.
pub proof fn law_traces_show_their_quantity(
    settings: &TraceSettings,
    data: &SweepData,
    language: Language,
    palette: &Palette,
    series: Vec<Series>,
    place: int,
)
    requires
        palette.wf(),
        call_ensures(trace_series, (settings, Some(data), language, palette), series),
    ensures
        settings.display is Spec && data.mode is Spec && data.format@ == ""@ ==> series@.len() == 1
            && series@[0].name == (Caption::Entry { language, key: Text::Level }) && shows_column(
            series@[0],
            *data,
            0,
        ),
        settings.display == TraceDisplay::S21(S21Display::Phase) && data.mode is S21
            && data.format@ == "ma"@ ==> series@.len() == 1 && series@[0].name == (Caption::Entry {
            language,
            key: Text::S21Phase,
        }) && shows_column(series@[0], *data, 1),
        settings.display == TraceDisplay::S21(S21Display::Loss) && data.mode is S21 && data.format@
            == "loss"@ ==> series@.len() == 1 && series@[0].name == (Caption::Entry {
            language,
            key: Text::S21Loss,
        }) && shows_column(series@[0], *data, 0),
        settings.display == TraceDisplay::S21(S21Display::Delay) && data.mode is S21
            && data.format@ == "delay"@ ==> series@.len() == 1 && series@[0].name == (
        Caption::Entry { language, key: Text::S21Delay }) && shows_column(series@[0], *data, 0),
        settings.display == TraceDisplay::S11(S11Display::Phase) && data.mode is S11
            && data.format@ == "ma"@ ==> series@.len() == 1 && shows_column(series@[0], *data, 1),
        settings.display == TraceDisplay::S11(S11Display::ReturnLoss) && data.mode is S11
            && data.format@ == "loss"@ ==> series@.len() == 1 && shows_column(series@[0], *data, 0),
        settings.display == TraceDisplay::S11(S11Display::Vswr) && data.mode is S11 && data.format@
            == "vswr"@ ==> series@.len() == 1 && shows_column(series@[0], *data, 0),
        settings.display == TraceDisplay::S11(S11Display::Magnitude) && data.mode is S11
            && data.format@ == "z"@ ==> series@.len() == 1 && shows_column(series@[0], *data, 0),
        settings.display == TraceDisplay::S11(S11Display::Resistance) && data.mode is S11
            && data.format@ == "z"@ ==> series@.len() == 1 && shows_column(series@[0], *data, 1),
        settings.display == TraceDisplay::S11(S11Display::Reactance) && data.mode is S11
            && data.format@ == "z"@ ==> series@.len() == 1 && shows_column(series@[0], *data, 2),
        settings.display == TraceDisplay::S11(S11Display::Impedance) && data.mode is S11
            && data.format@ == "z"@ ==> series@.len() == 3 && shows_column(series@[0], *data, 0)
            && shows_column(series@[1], *data, 1) && shows_column(series@[2], *data, 2)
            && series@[0].visible == settings.impedance_visible[0] && series@[1].visible
            == settings.impedance_visible[1] && series@[2].visible == settings.impedance_visible[2]
            && (forall|k: int|
            1 <= k < 3 && is_first_place(*palette, k, palette.base@[k]) ==> (
            #[trigger] series@[k]).color == palette.shown@[k]),
        series@.len() == 1 ==> series@[0].visible,
        series@.len() > 0 && !palette.base@.contains(settings.color) ==> series@[0].color
            == settings.color,
        series@.len() > 0 && is_first_place(*palette, place, settings.color) ==> series@[0].color
            == palette.shown@[place],
        series@.len() > 0 ==> (match settings.display {
            TraceDisplay::Spec => data.mode is Spec,
            TraceDisplay::S11(_) => data.mode is S11,
            TraceDisplay::S21(_) => data.mode is S21,
        }),
{
    let models = trace_curves(*settings, Some(data@), language, *palette);
    lemma_curve_models(series@, models);
    assert forall|k: int, column: int|
        0 <= k < series@.len() && 0 <= column && #[trigger] models[k].points == #[trigger] column_points(
            data@.points,
            column,
        ) implies shows_column(series@[k], *data, column) by {
        lemma_shows_column(series@[k], *data, models[k], column);
    }
    if settings.display.reads(data@) {
        let plain = plain_curves(*settings, data@, language, *palette);
        assert forall|k: int| 0 <= k < plain.len() implies (#[trigger] models[k]).points
            == plain[k].points by {}
    }
    lemma_first_place(*palette, place, settings.color);
    lemma_first_place(*palette, 1, palette.base@[1]);
    lemma_first_place(*palette, 2, palette.base@[2]);
}

/// A colour of the palette is drawn as its counterpart on the present
/// background, the first one where it is listed twice. Any other colour is drawn
/// as it is.
pub proof fn law_palette_colours_are_adapted(
    palette: &Palette,
    color: Color,
    place: int,
    drawn: Color,
)
    requires
        palette.wf(),
        call_ensures(displayed_color, (color, palette), drawn),
    ensures
        is_first_place(*palette, place, color) ==> drawn == palette.shown@[place],
        (forall|i: int| 0 <= i < palette.base@.len() ==> palette.base@[i] != color) ==> drawn
            == color,
{
    lemma_first_place(*palette, place, color);
}

/// The plain chart draws every visible trace but those of the Smith chart, each
/// once and in the order of the list.
pub proof fn law_the_plain_chart_is_complete(traces: Seq<TraceState>, count: int, place: int)
    requires
        0 <= place < count <= traces.len(),
    ensures
        plain_places(traces, count).contains(place) <==> traces[place].settings.visible
            && traces[place].settings.display != TraceDisplay::S11(S11Display::Smith),
    decreases count,
{
    let places = plain_places(traces, count);
    let before = plain_places(traces, count - 1);
    law_plain_places_ascend(traces, count - 1);
    if place < count - 1 {
        law_the_plain_chart_is_complete(traces, count - 1, place);
        if before.contains(place) {
            let k = choose|k: int| 0 <= k < before.len() && before[k] == place;
            assert(places[k] == place);
        }
    } else if on_plain_chart(traces[place]) {
        assert(places[before.len() as int] == place);
    }
}

/// The Smith chart draws every visible trace of its own, once: those that are
/// not selected first, then the selected one on top of them.
pub proof fn law_the_smith_chart_is_complete(
    traces: Seq<TraceState>,
    selected: Option<TraceId>,
    chosen: bool,
    count: int,
    place: int,
)
    requires
        0 <= place < count <= traces.len(),
    ensures
        smith_places(traces, selected, chosen, count).contains(place) <==> (
        traces[place].settings.visible && traces[place].settings.display == TraceDisplay::S11(
            S11Display::Smith,
        ) && (selected == Some(traces[place].id)) == chosen),
        forall|k: int|
            0 <= k < smith_places(traces, selected, chosen, count).len() ==> 0 <= (
            #[trigger] smith_places(traces, selected, chosen, count)[k]) < count,
    decreases count,
{
    let places = smith_places(traces, selected, chosen, count);
    let before = smith_places(traces, selected, chosen, count - 1);
    if count == 1 {
        assert(before.len() == 0);
    } else if place < count - 1 {
        law_the_smith_chart_is_complete(traces, selected, chosen, count - 1, place);
        if before.contains(place) {
            let k = choose|k: int| 0 <= k < before.len() && before[k] == place;
            assert(places[k] == place);
        }
    } else {
        law_the_smith_chart_is_complete(traces, selected, chosen, count - 1, 0);
    }
    if place == count - 1 && on_smith_chart(traces[place]) && (selected == Some(traces[place].id))
        == chosen {
        assert(places[before.len() as int] == place);
    }
}

/// What is drawn of a trace is its own curves, then its overlays, on the rows
/// that it shows. A fit is asked for a complete sweep alone, and never where the
/// user has fixed the view.
pub proof fn law_drawings_hold_own_curves_first(
    prepared: Prepared,
    place: int,
    trace: TraceState,
    language: Language,
    palette: Palette,
)
    requires
        is_prepared(prepared, place, trace, language, palette),
    ensures
        prepared.trace == place,
        prepared.base_count <= prepared.series@.len(),
        analysis_tools::series_models(prepared.series@).take(prepared.base_count as int)
            == trace_curves(trace.settings, trace.shown_data(), language, palette),
        prepared.fit ==> trace.needs_fit && !trace.view_locked && prepared.completed is Some,
        trace.needs_fit && !trace.view_locked && prepared.completed is Some ==> prepared.fit,
        prepared.completed is Some ==> trace.completed is Some && trace.settings.display.reads(
            trace.completed->0.data@,
        ),
{
    let own = trace_curves(trace.settings, trace.shown_data(), language, palette);
    let all = analysis_tools::series_models(prepared.series@);
    assert(all.take(own.len() as int) =~= own);
}

/// Fixing or releasing a view changes that trace's view alone: a fixed one keeps
/// what it shows, a released one shows what fits and asks for no other fit, and
/// measurements stay.
pub proof fn law_locks_change_the_view_alone(
    after: TraceState,
    before: TraceState,
    base_count: int,
    layer: LayerOutcome,
)
    requires
        is_after_layer(after, before, base_count, layer),
    ensures
        layer.lock is Locked ==> after.view_locked && after.view == before.view,
        layer.lock is Unlocked ==> !after.view_locked && after.view == layer.refit,
        layer.lock is Unchanged ==> after.view_locked == before.view_locked && after.view
            == before.view,
        after.id == before.id,
        after.completed == before.completed,
        after.preview == before.preview,
        after.settings.display == before.settings.display,
        after.settings.color == before.settings.color,
        after.analysis.markers == before.analysis.markers,
        before.settings.display == TraceDisplay::S11(S11Display::Impedance) && base_count == 3 ==> (
        forall|k: int|
            0 <= k < 3 ==> #[trigger] after.settings.impedance_visible@[k]
                == layer.series@[k].visible) && after.settings.visible == before.settings.visible,
        before.settings.display != TraceDisplay::S11(S11Display::Impedance) && base_count == 1
            ==> after.settings.visible == layer.series@[0].visible
            && after.settings.impedance_visible@ == before.settings.impedance_visible@,
        base_count == 0 ==> after.settings.visible == before.settings.visible
            && after.settings.impedance_visible@ == before.settings.impedance_visible@,
{
}

/// A reset of one view resets the frequencies of all: those of the last view
/// that was released, and of none where none was.
pub proof fn law_the_last_reset_counts(layers: Seq<LayerOutcome>, count: int, last: int)
    requires
        0 <= count <= layers.len(),
    ensures
        0 <= last < count && layers[last].lock is Unlocked && (forall|i: int|
            last < i < count ==> !((#[trigger] layers[i]).lock is Unlocked)) ==> reset_of(
            layers,
            count,
        ) == Some((layers[last].refit.x_min, layers[last].refit.x_max)),
        (forall|i: int| 0 <= i < count ==> !((#[trigger] layers[i]).lock is Unlocked))
            ==> reset_of(layers, count) is None,
    decreases count,
{
    if count > 0 {
        law_the_last_reset_counts(layers, count - 1, last);
        assert(layers[count - 1].lock is Unlocked || !(layers[count - 1].lock is Unlocked));
    }
}

/// A fit moves the vertical axis alone.
pub proof fn law_fits_keep_the_frequencies(trace: &mut TraceState, fitted: PlotView)
    requires
        call_ensures(take_fit, (trace, fitted), ()),
    ensures
        final(trace).view.x_min == old(trace).view.x_min,
        final(trace).view.x_max == old(trace).view.x_max,
        final(trace).view.y_min == fitted.y_min,
        final(trace).view.y_max == fitted.y_max,
        final(trace).completed == old(trace).completed,
        final(trace).view_locked == old(trace).view_locked,
{
}

/// Preparing the plain chart changes nothing of what was measured, chosen or
/// marked. A trace on it shows the shared frequencies, keeps its vertical range,
/// and still asks for a fit only where it could not be fitted.
pub proof fn law_preparing_keeps_measurements(
    workspace: &mut Workspace,
    language: Language,
    palette: &Palette,
    prepared: Vec<Prepared>,
    i: int,
)
    requires
        palette.wf(),
        call_ensures(prepare_cartesian, (workspace, language, palette), prepared),
        0 <= i < old(workspace).traces@.len(),
    ensures
        ({
            let before = old(workspace).traces@[i];
            let after = final(workspace).traces@[i];
            let plain = before.settings.visible && before.settings.display != TraceDisplay::S11(
                S11Display::Smith,
            );
            &&& final(workspace).traces@.len() == old(workspace).traces@.len()
            &&& final(workspace).selected == old(workspace).selected
            &&& final(workspace).x_view == old(workspace).x_view
            &&& !plain ==> after == before
            &&& after.id == before.id && after.settings == before.settings && after.completed
                == before.completed && after.preview == before.preview && after.view_locked
                == before.view_locked
            &&& after.analysis.markers == before.analysis.markers && after.analysis.column
                == before.analysis.column && after.analysis.target == before.analysis.target
                && after.analysis.held == before.analysis.held
            &&& plain ==> after.view.x_min == old(workspace).x_view.x_min && after.view.x_max == old(workspace).x_view.x_max
            &&& after.view.y_min == before.view.y_min && after.view.y_max == before.view.y_max
                && after.view.y_scale == before.view.y_scale
            &&& plain ==> after.analysis.language == language
            &&& after.needs_fit ==> before.needs_fit
            &&& plain && before.needs_fit ==> (after.needs_fit <==> before.view_locked
                || before.completed is None || !before.settings.display.reads(
                before.completed->0.data@,
            ))
        }),
{
    assert(final(workspace).traces@[i] == final(workspace).traces@[i]);
}

/// The layers of the plain chart are those of the traces on it, each once.
pub proof fn law_layers_stand_for_visible_traces(
    workspace: &mut Workspace,
    language: Language,
    palette: &Palette,
    prepared: Vec<Prepared>,
    i: int,
    k: int,
)
    requires
        palette.wf(),
        call_ensures(prepare_cartesian, (workspace, language, palette), prepared),
    ensures
        ({
            let traces = old(workspace).traces@;
            &&& 0 <= k < prepared@.len() ==> prepared@[k].trace < traces.len()
                && traces[prepared@[k].trace as int].settings.visible
                && traces[prepared@[k].trace as int].settings.display != TraceDisplay::S11(
                S11Display::Smith,
            )
            &&& 0 <= i < k < prepared@.len() ==> prepared@[i].trace < prepared@[k].trace
            &&& 0 <= i < traces.len() && traces[i].settings.visible && traces[i].settings.display
                != TraceDisplay::S11(S11Display::Smith) ==> in_layers(prepared@, i)
        }),
{
    let traces = old(workspace).traces@;
    let count = traces.len() as int;
    let places = plain_places(traces, count);
    law_plain_places_ascend(traces, count);
    if 0 <= k < prepared@.len() {
        assert(is_prepared(prepared@[k], places[k], traces[places[k]], language, *palette));
        assert(0 <= places[k] < count);
        law_the_plain_chart_is_complete(traces, count, places[k]);
        assert(places.contains(places[k]));
    }
    if 0 <= i < k < prepared@.len() {
        assert(is_prepared(prepared@[i], places[i], traces[places[i]], language, *palette));
    }
    if 0 <= i < traces.len() && on_plain_chart(traces[i]) {
        law_the_plain_chart_is_complete(traces, count, i);
        let m = choose|m: int| 0 <= m < places.len() && places[m] == i;
        assert(is_prepared(prepared@[m], places[m], traces[places[m]], language, *palette));
        assert(prepared@[m].trace == i);
    }
}

/// What the user did on the plain chart: a chosen trace is selected, the
/// frequencies of the first layer become those of the workspace, and a reset
/// gives its frequencies to every trace. Traces that are not on the chart keep
/// all the rest.
pub proof fn law_charts_share_their_frequencies(
    workspace: &mut Workspace,
    prepared: &Vec<Prepared>,
    outcome: &PlotOutcome,
    last: int,
    i: int,
)
    requires
        outcome.layers@.len() == prepared@.len(),
        forall|k: int|
            0 <= k < prepared@.len() ==> (#[trigger] prepared@[k]).trace < old(workspace).traces@.len() && prepared@[k].base_count <= outcome.layers@[k].series@.len(),
        forall|j: int, k: int|
            0 <= j < k < prepared@.len() ==> (#[trigger] prepared@[j]).trace < (
            #[trigger] prepared@[k]).trace,
        forall|i: int|
            0 <= i < old(workspace).traces@.len() ==> (#[trigger] old(workspace).traces@[i]).analysis.wf(),
        call_ensures(use_cartesian, (workspace, prepared, outcome), ()),
        0 <= i < old(workspace).traces@.len(),
    ensures
        ({
            let layers = outcome.layers@;
            let before = old(workspace).traces@[i];
            let after = final(workspace).traces@[i];
            let resets = 0 <= last < layers.len() && layers[last].lock is Unlocked && forall|m: int|
                last < m < layers.len() ==> !((#[trigger] layers[m]).lock is Unlocked);
            let none = forall|m: int|
                0 <= m < layers.len() ==> !((#[trigger] layers[m]).lock is Unlocked);
            &&& outcome.activated is Some ==> final(workspace).selected == outcome.activated
            &&& outcome.activated is None ==> final(workspace).selected == old(workspace).selected
            &&& final(workspace).traces@.len() == old(workspace).traces@.len()
            &&& resets ==> final(workspace).x_view.x_min == layers[last].refit.x_min && final(workspace).x_view.x_max == layers[last].refit.x_max
            &&& resets ==> after.view.x_min == layers[last].refit.x_min && after.view.x_max
                == layers[last].refit.x_max
            &&& none && prepared@.len() > 0 ==> final(workspace).x_view.x_min == outcome.x_view.0
                && final(workspace).x_view.x_max == outcome.x_view.1
            &&& prepared@.len() == 0 ==> final(workspace).x_view == old(workspace).x_view
            &&& none && !in_layers(prepared@, i) ==> after == before
            &&& !in_layers(prepared@, i) ==> after.settings == before.settings && after.completed
                == before.completed && after.view_locked == before.view_locked && after.view.y_min
                == before.view.y_min && after.view.y_max == before.view.y_max
        }),
{
    let layers = outcome.layers@;
    let reset = reset_of(layers, layers.len() as int);
    law_the_last_reset_counts(layers, layers.len() as int, last);
    let before = old(workspace).traces@;
    let after = final(workspace).traces@;
    if in_layers(prepared@, i) {
        let k = choose|k: int| 0 <= k < prepared@.len() && (#[trigger] prepared@[k]).trace == i;
        let drawn = choose|drawn: TraceState|
            {
                &&& #[trigger] is_after_layer(
                    drawn,
                    before[i],
                    prepared@[k].base_count as int,
                    outcome.layers@[k],
                )
                &&& after[i] == (TraceState { view: with_x(drawn.view, reset), ..drawn })
            };
        assert(after[i].view == with_x(drawn.view, reset));
    } else {
        assert(after[i] == (TraceState { view: with_x(before[i].view, reset), ..before[i] }));
    }
}

/// What the user did to one layer of the plain chart: a fixed view stays, a
/// released one is fitted, and what is measured and marked stays in any case.
pub proof fn law_layers_change_their_trace(
    workspace: &mut Workspace,
    prepared: &Vec<Prepared>,
    outcome: &PlotOutcome,
    k: int,
)
    requires
        outcome.layers@.len() == prepared@.len(),
        forall|k: int|
            0 <= k < prepared@.len() ==> (#[trigger] prepared@[k]).trace < old(workspace).traces@.len() && prepared@[k].base_count <= outcome.layers@[k].series@.len(),
        forall|j: int, k: int|
            0 <= j < k < prepared@.len() ==> (#[trigger] prepared@[j]).trace < (
            #[trigger] prepared@[k]).trace,
        forall|i: int|
            0 <= i < old(workspace).traces@.len() ==> (#[trigger] old(workspace).traces@[i]).analysis.wf(),
        call_ensures(use_cartesian, (workspace, prepared, outcome), ()),
        0 <= k < prepared@.len(),
    ensures
        ({
            let place = prepared@[k].trace as int;
            let layer = outcome.layers@[k];
            let before = old(workspace).traces@[place];
            let after = final(workspace).traces@[place];
            let impedance = before.settings.display == TraceDisplay::S11(S11Display::Impedance);
            &&& layer.lock is Locked ==> after.view_locked && after.view.y_min == before.view.y_min
                && after.view.y_max == before.view.y_max
            &&& layer.lock is Unlocked ==> !after.view_locked && after.view.y_min
                == layer.refit.y_min && after.view.y_max == layer.refit.y_max
            &&& layer.lock is Unchanged ==> after.view_locked == before.view_locked
                && after.view.y_min == before.view.y_min && after.view.y_max == before.view.y_max
            &&& after.id == before.id && after.completed == before.completed && after.preview
                == before.preview && after.analysis.markers == before.analysis.markers
            &&& after.settings.display == before.settings.display && after.settings.color
                == before.settings.color && after.settings.cal == before.settings.cal
            &&& impedance && prepared@[k].base_count == 3 ==> after.settings.impedance_visible@[0]
                == layer.series@[0].visible && after.settings.impedance_visible@[1]
                == layer.series@[1].visible && after.settings.impedance_visible@[2]
                == layer.series@[2].visible && after.settings.visible == before.settings.visible
            &&& !impedance && prepared@[k].base_count == 1 ==> after.settings.visible
                == layer.series@[0].visible
            &&& after.settings.impedance_visible@ != before.settings.impedance_visible@
                ==> after.needs_fit
            &&& after.settings.impedance_visible@ == before.settings.impedance_visible@
                && layer.lock is Unlocked ==> !after.needs_fit
            &&& after.settings.impedance_visible@ == before.settings.impedance_visible@ && !(
            layer.lock is Unlocked) ==> after.needs_fit == before.needs_fit
        }),
{
    let layers = outcome.layers@;
    let reset = reset_of(layers, layers.len() as int);
    let place = prepared@[k].trace as int;
    let before = old(workspace).traces@;
    let after = final(workspace).traces@;
    let drawn = choose|drawn: TraceState|
        {
            &&& #[trigger] is_after_layer(
                drawn,
                before[place],
                prepared@[k].base_count as int,
                outcome.layers@[k],
            )
            &&& after[place] == (TraceState { view: with_x(drawn.view, reset), ..drawn })
        };
    law_locks_change_the_view_alone(
        drawn,
        before[place],
        prepared@[k].base_count as int,
        outcome.layers@[k],
    );
    assert(after[place].view.y_min == drawn.view.y_min);
}

/// The Smith chart draws a trace's rows, what is held of them and its markers.
/// What is held and marked is drawn only over rows of the same kind.
pub proof fn law_smith_layers_show_their_trace(
    workspace: &Workspace,
    palette: &Palette,
    layers: Vec<SmithLayer>,
    k: int,
)
    requires
        palette.wf(),
        call_ensures(smith_layers, (workspace, palette), layers),
        0 <= k < layers@.len(),
    ensures
        ({
            let traces = workspace.traces@;
            let layer = layers@[k];
            let trace = traces[layer.trace as int];
            &&& layer.trace < traces.len()
            &&& trace.settings.visible && trace.settings.display == TraceDisplay::S11(
                S11Display::Smith,
            )
            &&& workspace.selected != Some(trace.id) || (forall|m: int|
                k < m < layers@.len() ==> workspace.selected == Some(
                    traces[(#[trigger] layers@[m]).trace as int].id,
                ))
            &&& analysis_tools::data_model(layer.data) == trace.shown_data()
            &&& !trace.overlays_fit() ==> layer.held is None && layer.marker_data is None
            &&& trace.overlays_fit() ==> analysis_tools::data_model(layer.held)
                == trace.analysis.held_model() && analysis_tools::data_model(layer.marker_data)
                == trace.analysis.marker_model()
        }),
{
    let traces = workspace.traces@;
    let count = traces.len() as int;
    let rest = smith_places(traces, workspace.selected, false, count);
    let top = smith_places(traces, workspace.selected, true, count);
    let places = rest + top;
    assert forall|m: int| 0 <= m < layers@.len() implies 0 <= (#[trigger] layers@[m]).trace < count
        && layers@[m].trace == places[m] && on_smith_chart(traces[places[m]]) && (
    workspace.selected == Some(traces[places[m]].id)) == (m >= rest.len()) by {
        assert(is_smith_layer(layers@[m], places[m], traces[places[m]], *palette));
        if count > 0 {
            law_the_smith_chart_is_complete(traces, workspace.selected, false, count, 0);
            law_the_smith_chart_is_complete(traces, workspace.selected, true, count, 0);
            if m < rest.len() {
                assert(rest.contains(rest[m]));
                law_the_smith_chart_is_complete(traces, workspace.selected, false, count, rest[m]);
            } else {
                let n = m - rest.len();
                assert(top.contains(top[n]));
                law_the_smith_chart_is_complete(traces, workspace.selected, true, count, top[n]);
            }
        }
    }
    assert(is_smith_layer(layers@[k], places[k], traces[places[k]], *palette));
}

/// Choosing a curve selects its trace, and choosing none keeps the selection.
pub proof fn law_chosen_traces_are_selected(workspace: &mut Workspace, activated: Option<TraceId>)
    requires
        call_ensures(activate, (workspace, activated), ()),
    ensures
        activated is Some ==> final(workspace).selected == activated,
        activated is None ==> final(workspace).selected == old(workspace).selected,
        final(workspace).traces == old(workspace).traces,
        final(workspace).x_view == old(workspace).x_view,
{
}

/// Overlays and marks are drawn over rows of the same kind alone. Where a sweep
/// is shown that is still under way on other conditions, a layer has only its
/// own curves and no place for a marker. Otherwise its overlays are those of the
/// latest sweep, and markers stand where its target can be read.
pub proof fn law_overlays_need_rows_of_their_kind(
    workspace: &mut Workspace,
    language: Language,
    palette: &Palette,
    prepared: Vec<Prepared>,
    k: int,
)
    requires
        palette.wf(),
        call_ensures(prepare_cartesian, (workspace, language, palette), prepared),
        0 <= k < prepared@.len(),
    ensures
        ({
            let layer = prepared@[k];
            let before = old(workspace).traces@[layer.trace as int];
            let after = final(workspace).traces@[layer.trace as int];
            let analysis = AnalysisTools { language, ..before.analysis };
            let curves = analysis_tools::series_models(layer.series@);
            &&& layer.trace < old(workspace).traces@.len()
            &&& !before.overlays_fit() ==> curves.len() == layer.base_count && layer.markers@.len()
                == 0 && after.analysis.rendered_overlays == before.analysis.rendered_overlays
            &&& before.analysis.latest is None ==> curves.len() == layer.base_count
            &&& before.overlays_fit() && before.analysis.latest is Some ==> curves.skip(
                layer.base_count as int,
            ) == analysis.overlay_model(
                before.analysis.latest->0.data@,
                before.settings.display.spec_columns(),
            ) && analysis_tools::key_models(after.analysis.rendered_overlays@)
                == analysis.overlay_keys(
                before.analysis.latest->0.data@.format,
                before.settings.display.spec_columns(),
            )
            &&& before.overlays_fit() && before.analysis.latest is None
                ==> after.analysis.rendered_overlays@.len() == 0
            &&& before.completed is None ==> layer.markers@.len() == 0
            &&& before.overlays_fit() && before.completed is Some && before.settings.display.reads(
                before.completed->0.data@,
            ) ==> layer.markers@ == analysis_tools::markable(
                before.completed->0.data@.points,
                before.analysis.target_model(before.completed->0.data@),
                before.analysis.column as int,
                before.completed->0.data@.points.len() as int,
            )
        }),
{
    let traces = old(workspace).traces@;
    let count = traces.len() as int;
    let places = plain_places(traces, count);
    law_plain_places_ascend(traces, count);
    assert(is_prepared(prepared@[k], places[k], traces[places[k]], language, *palette));
    let place = places[k];
    assert(0 <= place < count);
    law_the_plain_chart_is_complete(traces, count, place);
    assert(places.contains(place));
    let trace = traces[place];
    assert(is_after_preparing(
        final(workspace).traces@[place],
        trace,
        old(workspace).x_view,
        language,
    ));
    let own = trace_curves(trace.settings, trace.shown_data(), language, *palette);
    let more = overlay_curves(trace.analysis, trace.settings.display, trace.overlays_fit(), language);
    assert((own + more).skip(own.len() as int) =~= more);
}

} // verus!
