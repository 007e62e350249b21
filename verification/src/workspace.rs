//! Traces of the workspace and how each of them is displayed.

use std::sync::Arc;
use vstd::prelude::*;

use crate::acquisition::{
    AcquisitionGroup, CompletedSweep, RunSettings, TraceId, MAX_TRACES,
};
use crate::analysis_tools::{AnalysisTools, Color};
use crate::model::{Cal, DataModel, Format, Lo, Rbw, Real, StreamMode, SweepData};
use crate::text::{same_text, Caption, Language, Text};

verus! {

/// Quantity that a trace shows.
#[derive(Debug, Clone, Copy, PartialEq, Eq, Structural)]
pub enum AppMode {
    Spec,
    S11,
    S21,
}

#[derive(Debug, Clone, Copy, PartialEq, Eq, Structural)]
pub enum S11Display {
    Phase,
    ReturnLoss,
    Vswr,
    Smith,
    Impedance,
    Magnitude,
    Resistance,
    Reactance,
}

#[derive(Debug, Clone, Copy, PartialEq, Eq, Structural)]
pub enum S21Display {
    Phase,
    Loss,
    Delay,
}

/// Projection of a trace.
#[derive(Debug, Clone, Copy, PartialEq, Eq, Structural)]
pub enum TraceDisplay {
    Spec,
    S11(S11Display),
    S21(S21Display),
}

impl S11Display {
    pub open spec fn spec_wire_format(self) -> Format {
        match self {
            S11Display::Phase => Format::Ma,
            S11Display::ReturnLoss => Format::Loss,
            S11Display::Vswr => Format::Vswr,
            _ => Format::Z,
        }
    }

    /// Format that the instrument is asked for.
    pub fn wire_format(self) -> (format: Format)
        ensures
            format == self.spec_wire_format(),
    {
        match self {
            S11Display::Phase => Format::Ma,
            S11Display::ReturnLoss => Format::Loss,
            S11Display::Vswr => Format::Vswr,
            _ => Format::Z,
        }
    }
}

impl S21Display {
    pub open spec fn spec_wire_format(self) -> Format {
        match self {
            S21Display::Phase => Format::Ma,
            S21Display::Loss => Format::Loss,
            S21Display::Delay => Format::Delay,
        }
    }

    /// Format that the instrument is asked for.
    pub fn wire_format(self) -> (format: Format)
        ensures
            format == self.spec_wire_format(),
    {
        match self {
            S21Display::Phase => Format::Ma,
            S21Display::Loss => Format::Loss,
            S21Display::Delay => Format::Delay,
        }
    }

    pub open spec fn key(self) -> Text {
        match self {
            S21Display::Phase => Text::S21Phase,
            S21Display::Loss => Text::S21Loss,
            S21Display::Delay => Text::S21Delay,
        }
    }

    pub fn label(self, language: Language) -> (caption: Caption)
        ensures
            caption == (Caption::Entry { language, key: self.key() }),
    {
        language.text(
            match self {
                S21Display::Phase => Text::S21Phase,
                S21Display::Loss => Text::S21Loss,
                S21Display::Delay => Text::S21Delay,
            },
        )
    }
}

impl TraceDisplay {
    pub open spec fn spec_mode(self) -> AppMode {
        match self {
            TraceDisplay::Spec => AppMode::Spec,
            TraceDisplay::S11(_) => AppMode::S11,
            TraceDisplay::S21(_) => AppMode::S21,
        }
    }

    pub fn mode(self) -> (mode: AppMode)
        ensures
            mode == self.spec_mode(),
    {
        match self {
            TraceDisplay::Spec => AppMode::Spec,
            TraceDisplay::S11(_) => AppMode::S11,
            TraceDisplay::S21(_) => AppMode::S21,
        }
    }

    pub open spec fn smith(self) -> bool {
        self == TraceDisplay::S11(S11Display::Smith)
    }

    pub fn is_smith(self) -> (smith: bool)
        ensures
            smith == self.smith(),
    {
        matches!(self, TraceDisplay::S11(S11Display::Smith))
    }

    /// Whether rows hold what this projection reads: the receiver and the wire
    /// format are its own.
    pub open spec fn reads(self, data: DataModel) -> bool {
        match self {
            TraceDisplay::Spec => data.mode is Spec && data.format == ""@,
            TraceDisplay::S11(display) => data.mode is S11 && data.format
                == display.spec_wire_format().name(),
            TraceDisplay::S21(display) => data.mode is S21 && data.format
                == display.spec_wire_format().name(),
        }
    }

    pub fn accepts(self, data: &SweepData) -> (accepted: bool)
        ensures
            accepted == self.reads(data@),
    {
        match self {
            TraceDisplay::Spec => data.mode == StreamMode::Spec && same_text(
                data.format.as_str(),
                "",
            ),
            TraceDisplay::S11(display) => data.mode == StreamMode::S11 && same_text(
                data.format.as_str(),
                display.wire_format().as_str(),
            ),
            TraceDisplay::S21(display) => data.mode == StreamMode::S21 && same_text(
                data.format.as_str(),
                display.wire_format().as_str(),
            ),
        }
    }

    /// Raw columns that this projection draws.
    pub open spec fn spec_columns(self) -> Seq<usize> {
        match self {
            TraceDisplay::S11(S11Display::Impedance)
            | TraceDisplay::S11(S11Display::Smith) => seq![0usize, 1usize, 2usize],
            TraceDisplay::S11(S11Display::Phase)
            | TraceDisplay::S11(S11Display::Resistance)
            | TraceDisplay::S21(S21Display::Phase) => seq![1usize],
            TraceDisplay::S11(S11Display::Reactance) => seq![2usize],
            _ => seq![0usize],
        }
    }

    pub fn columns(self) -> (columns: Vec<usize>)
        ensures
            columns@ == self.spec_columns(),
    {
        let columns: Vec<usize> = match self {
            TraceDisplay::S11(S11Display::Impedance) | TraceDisplay::S11(S11Display::Smith) => {
                vec![0, 1, 2]
            },
            TraceDisplay::S11(S11Display::Phase)
            | TraceDisplay::S11(S11Display::Resistance)
            | TraceDisplay::S21(S21Display::Phase) => vec![1],
            TraceDisplay::S11(S11Display::Reactance) => vec![2],
            _ => vec![0],
        };
        assert(columns@ =~= self.spec_columns());
        columns
    }

    /// The column, where a projection draws a single one.
    pub open spec fn spec_fixed_column(self) -> Option<usize> {
        if self.spec_columns().len() == 1 {
            Some(self.spec_columns()[0])
        } else {
            None
        }
    }

    pub fn fixed_column(self) -> (column: Option<usize>)
        ensures
            column == self.spec_fixed_column(),
    {
        let columns = self.columns();
        if columns.len() == 1 {
            Some(columns[0])
        } else {
            None
        }
    }
}

/// A line's width, by its IEEE 754 single-precision bits.
#[derive(Debug, Clone, Copy, PartialEq, Eq, Structural)]
pub struct Width {
    pub bits: u32,
}

impl Width {
    /// Half a point.
    pub open spec fn thinnest() -> Width {
        Width { bits: 0x3f00_0000 }
    }

    /// One point.
    pub open spec fn normal() -> Width {
        Width { bits: 0x3f80_0000 }
    }

    /// Five points.
    pub open spec fn thickest() -> Width {
        Width { bits: 0x40a0_0000 }
    }

    /// Whether this is a finite number.
    pub open spec fn finite(self) -> bool {
        if self.bits >= 0x8000_0000 {
            self.bits < 0xff80_0000
        } else {
            self.bits < 0x7f80_0000
        }
    }

    /// An integer that orders finite widths as their values do.
    pub open spec fn rank(self) -> int {
        if self.bits >= 0x8000_0000 {
            0x8000_0000 - self.bits
        } else {
            self.bits as int
        }
    }

    /// The nearest width that is drawn: between half a point and five points,
    /// and one point where this is no finite number.
    pub open spec fn drawn(self) -> Width {
        if !self.finite() {
            Width::normal()
        } else if self.rank() < Width::thinnest().rank() {
            Width::thinnest()
        } else if self.rank() > Width::thickest().rank() {
            Width::thickest()
        } else {
            self
        }
    }

    pub fn clamped(self) -> (width: Width)
        ensures
            width == self.drawn(),
    {
        if self.bits >= 0x8000_0000 {
            if self.bits < 0xff80_0000 {
                Width { bits: 0x3f00_0000 }
            } else {
                Width { bits: 0x3f80_0000 }
            }
        } else if self.bits >= 0x7f80_0000 {
            Width { bits: 0x3f80_0000 }
        } else if self.bits < 0x3f00_0000 {
            Width { bits: 0x3f00_0000 }
        } else if self.bits > 0x40a0_0000 {
            Width { bits: 0x40a0_0000 }
        } else {
            self
        }
    }
}

/// What a user sets for one trace.
#[derive(Debug, Clone, Copy, PartialEq, Eq)]
pub struct TraceSettings {
    pub display: TraceDisplay,
    pub cal: Cal,
    pub rbw: Rbw,
    pub lo: Lo,
    pub ref_level_dbm: i32,
    pub visible: bool,
    pub color: Color,
    pub line_width: Width,
    /// Which of magnitude, resistance and reactance an impedance trace shows.
    pub impedance_visible: [bool; 3],
}

/// A span of a segmented sweep as the user defines it.
#[derive(Debug, Clone, Copy, PartialEq, Eq, Structural)]
pub struct SegmentDefinition {
    pub start_hz: u64,
    pub stop_hz: u64,
    pub max_step_hz: u64,
}

/// Which grid of the workspace is measured.
#[derive(Debug, Clone, Copy, PartialEq, Eq, Structural)]
pub enum SweepMode {
    Range,
    List,
    Segments,
}

#[derive(Debug, Clone, Copy, PartialEq, Eq, Structural)]
pub struct SweepRange {
    pub start_hz: Real,
    pub stop_hz: Real,
    pub points: u32,
}

/// Scale of a vertical axis.
#[derive(Debug, Clone, Copy, PartialEq, Eq, Structural)]
pub enum YScale {
    Linear,
    LogImpedance,
    LogVswr,
}

/// What part of a plane a chart shows.
#[derive(Debug, Clone, Copy, PartialEq, Eq, Structural)]
pub struct PlotView {
    pub x_min: Real,
    pub x_max: Real,
    pub y_min: Real,
    pub y_max: Real,
    pub y_divisions: usize,
    pub y_scale: YScale,
}

/// Zoom and pan of the Smith chart.
#[derive(Debug, Clone, Copy, PartialEq, Eq, Structural)]
pub struct SmithView {
    pub zoom: Real,
    pub dx: Real,
    pub dy: Real,
}

/// Rows of a sweep that is still under way.
#[derive(Debug, PartialEq, Eq)]
pub struct PreviewEnvelope {
    pub session_id: u64,
    pub request_id: u64,
    pub cycle_id: u64,
    pub group: AcquisitionGroup,
    pub data: SweepData,
}

/// One trace with what was measured for it.
#[derive(Debug)]
pub struct TraceState {
    pub id: TraceId,
    pub settings: TraceSettings,
    pub completed: Option<Arc<CompletedSweep>>,
    pub preview: Option<Arc<PreviewEnvelope>>,
    pub last_completed_cycle: Option<u64>,
    pub view: PlotView,
    pub view_locked: bool,
    pub needs_fit: bool,
    pub analysis: AnalysisTools,
}

impl TraceState {
    /// A trace without measurements, analysed as its projection asks.
    pub open spec fn is_new(self, id: TraceId, settings: TraceSettings, view: PlotView) -> bool {
        &&& self.id == id
        &&& self.settings == settings
        &&& self.completed is None
        &&& self.preview is None
        &&& self.last_completed_cycle is None
        &&& self.view == view
        &&& !self.view_locked
        &&& self.needs_fit
        &&& self.analysis.wf()
        &&& self.analysis.latest is None
        &&& !self.analysis.hold && !self.analysis.max_hold && !self.analysis.min_hold
        &&& self.analysis.held is None && self.analysis.maxima is None && self.analysis.minima is None
        &&& self.analysis.markers@.len() == 0
        &&& self.analysis.next_id == 0
        &&& self.analysis.trace_id == id.0
        &&& self.analysis.fixed_column == settings.display.spec_fixed_column()
        &&& self.analysis.column == match settings.display.spec_fixed_column() {
            Some(column) => column,
            None => 0,
        }
        &&& !self.analysis.restored_column
        &&& self.analysis.target is Current
        &&& self.analysis.smith == settings.display.smith()
        &&& self.analysis.language is English
        &&& self.analysis.overlay_visibility@.len() == 0
        &&& self.analysis.rendered_overlays@.len() == 0
    }

    pub fn new(id: TraceId, settings: TraceSettings, view: PlotView) -> (trace: Self)
        ensures
            trace.is_new(id, settings, view),
    {
        let mut analysis = AnalysisTools::default();
        analysis.set_trace_id(id.0);
        analysis.set_column(settings.display.fixed_column());
        analysis.set_smith(settings.display.is_smith());
        TraceState {
            id,
            settings,
            completed: None,
            preview: None,
            last_completed_cycle: None,
            view,
            view_locked: false,
            needs_fit: true,
            analysis,
        }
    }

    /// The last complete sweep, if the projection reads its rows.
    pub open spec fn shown_sweep(self) -> Option<Arc<CompletedSweep>> {
        match self.completed {
            Some(snapshot) => if self.settings.display.reads(snapshot.data@) {
                Some(snapshot)
            } else {
                None
            },
            None => None,
        }
    }

    pub fn completed_for_display(&self) -> (snapshot: Option<Arc<CompletedSweep>>)
        ensures
            snapshot == self.shown_sweep(),
    {
        match &self.completed {
            Some(snapshot) => {
                if self.settings.display.accepts(&snapshot.data) {
                    Some(snapshot.clone())
                } else {
                    None
                }
            },
            None => None,
        }
    }

    /// Whether the preview has rows that the projection reads.
    pub open spec fn has_prefix(self) -> bool {
        self.preview is Some && self.preview->0.data@.points.len() > 0
            && self.settings.display.reads(self.preview->0.data@)
    }

    /// The rows that are drawn: those of the sweep under way as soon as there
    /// are some, those of the last complete one before.
    pub open spec fn shown_data(self) -> Option<DataModel> {
        if self.has_prefix() {
            Some(self.preview->0.data@)
        } else {
            match self.shown_sweep() {
                Some(snapshot) => Some(snapshot.data@),
                None => None,
            }
        }
    }

    pub fn display_data(&self) -> (data: Option<&SweepData>)
        ensures
            match data {
                Some(data) => Some(data@),
                None => None,
            } == self.shown_data(),
    {
        if let Some(preview) = &self.preview {
            if preview.data.points.len() > 0 && self.settings.display.accepts(&preview.data) {
                return Some(&preview.data);
            }
        }
        match &self.completed {
            Some(snapshot) => {
                if self.settings.display.accepts(&snapshot.data) {
                    Some(&snapshot.data)
                } else {
                    None
                }
            },
            None => None,
        }
    }

    /// Whether holds and markers belong to the rows that are drawn: nothing of
    /// a sweep under way is shown, or it continues the last complete one.
    pub open spec fn overlays_fit(self) -> bool {
        self.has_prefix() ==> self.completed is Some && self.completed->0.session_id
            == self.preview->0.session_id && self.completed->0.settings@
            == self.preview->0.group@.settings
    }

    pub fn overlays_compatible(&self) -> (compatible: bool)
        ensures
            compatible == self.overlays_fit(),
    {
        let Some(preview) = &self.preview else {
            return true;
        };
        if preview.data.points.len() == 0 || !self.settings.display.accepts(&preview.data) {
            return true;
        }
        match &self.completed {
            Some(snapshot) => snapshot.session_id == preview.session_id && snapshot.settings.same(
                &preview.group.settings,
            ),
            None => false,
        }
    }
}

/// Settings of a trace while the user edits them.
#[derive(Debug)]
pub struct TraceEditor {
    /// The trace, or nothing for a new one.
    pub id: Option<TraceId>,
    pub settings: TraceSettings,
}

/// All traces and the grids that they can be measured on.
#[derive(Debug)]
pub struct Workspace {
    pub range: SweepRange,
    pub sweep_mode: SweepMode,
    pub segments: Vec<SegmentDefinition>,
    pub frequencies_hz: Vec<u64>,
    pub run: RunSettings,
    pub log_x: bool,
    pub selected: Option<TraceId>,
    pub next_id: u64,
    pub traces: Vec<TraceState>,
    pub x_view: PlotView,
    pub smith: SmithView,
    pub editor: Option<TraceEditor>,
}

/// Whether a number is taken.
pub open spec fn has_trace(traces: Seq<TraceState>, id: TraceId) -> bool {
    exists|i: int| 0 <= i < traces.len() && (#[trigger] traces[i]).id == id
}

/// Index of the trace with this number.
pub fn trace_index(traces: &Vec<TraceState>, id: TraceId) -> (index: Option<usize>)
    ensures
        match index {
            Some(index) => index < traces@.len() && traces@[index as int].id == id && forall|i: int|
                0 <= i < index ==> (#[trigger] traces@[i]).id != id,
            None => !has_trace(traces@, id),
        },
{
    let mut index: usize = 0;
    while index < traces.len()
        invariant
            index <= traces@.len(),
            forall|i: int| 0 <= i < index ==> (#[trigger] traces@[i]).id != id,
        decreases traces@.len() - index,
    {
        if traces[index].id == id {
            return Some(index);
        }
        index = index + 1;
    }
    None
}

impl Workspace {
    /// Traces have numbers of their own below the next one, there are not too
    /// many of them, and the selected one is among them.
    pub open spec fn wf(self) -> bool {
        &&& self.traces@.len() <= MAX_TRACES
        &&& self.next_id > 0
        &&& forall|i: int|
            0 <= i < self.traces@.len() ==> 0 < (#[trigger] self.traces@[i]).id.0 < self.next_id
        &&& forall|i: int, j: int|
            0 <= i < j < self.traces@.len() ==> (#[trigger] self.traces@[i]).id != (
            #[trigger] self.traces@[j]).id
        &&& forall|i: int| 0 <= i < self.traces@.len() ==> (#[trigger] self.traces@[i]).analysis.wf()
        &&& self.selected matches Some(id) ==> has_trace(self.traces@, id)
    }

    /// A workspace without traces.
    pub open spec fn is_empty(self, range: SweepRange, x_view: PlotView, smith: SmithView) -> bool {
        &&& self.range == range
        &&& self.sweep_mode is Range
        &&& self.segments@.len() == 0
        &&& self.frequencies_hz@.len() == 0
        &&& self.run.is_plain()
        &&& !self.log_x
        &&& self.selected is None
        &&& self.next_id == 1
        &&& self.traces@.len() == 0
        &&& self.x_view == x_view
        &&& self.smith == smith
        &&& self.editor is None
    }

    pub fn empty(range: SweepRange, x_view: PlotView, smith: SmithView) -> (workspace: Self)
        ensures
            workspace.wf(),
            workspace.is_empty(range, x_view, smith),
    {
        Workspace {
            range,
            sweep_mode: SweepMode::Range,
            segments: Vec::new(),
            frequencies_hz: Vec::new(),
            run: RunSettings::default(),
            log_x: false,
            selected: None,
            next_id: 1,
            traces: Vec::new(),
            x_view,
            smith,
            editor: None,
        }
    }

    /// Add a trace under a new number and select it. There is no room beyond
    /// the limit, nor once numbers have run out.
    pub fn add_trace(&mut self, settings: TraceSettings, view: PlotView) -> (id: Option<TraceId>)
        requires
            old(self).wf(),
        ensures
            final(self).wf(),
            match id {
                Some(id) => {
                    &&& old(self).traces@.len() < MAX_TRACES && old(self).next_id < u64::MAX
                    &&& id.0 == old(self).next_id
                    &&& final(self).traces@.len() == old(self).traces@.len() + 1
                    &&& final(self).traces@.drop_last() == old(self).traces@
                    &&& final(self).traces@.last().is_new(id, settings, view)
                    &&& *final(self) == (Workspace {
                        traces: final(self).traces,
                        next_id: (old(self).next_id + 1) as u64,
                        selected: Some(id),
                        ..*old(self)
                    })
                },
                None => {
                    &&& old(self).traces@.len() >= MAX_TRACES || old(self).next_id == u64::MAX
                    &&& *final(self) == *old(self)
                },
            },
    {
        if self.traces.len() >= MAX_TRACES || self.next_id == u64::MAX {
            return None;
        }
        let id = TraceId(self.next_id);
        self.next_id = self.next_id + 1;
        self.traces.push(TraceState::new(id, settings, view));
        self.selected = Some(id);
        assert(self.traces@.drop_last() =~= old(self).traces@);
        assert(self.traces@[self.traces@.len() - 1].id == id);
        assert forall|i: int| 0 <= i < self.traces@.len() implies 0 < (
        #[trigger] self.traces@[i]).id.0 < self.next_id && self.traces@[i].analysis.wf() by {
            if i < old(self).traces@.len() {
                assert(self.traces@[i] == old(self).traces@[i]);
            }
        }
        assert forall|i: int, j: int| 0 <= i < j < self.traces@.len() implies (
        #[trigger] self.traces@[i]).id != (#[trigger] self.traces@[j]).id by {
            assert(self.traces@[i] == old(self).traces@[i]);
            if j < old(self).traces@.len() {
                assert(self.traces@[j] == old(self).traces@[j]);
            }
        }
        Some(id)
    }

    /// Remove a trace. If it was selected, the last one left is selected. Its
    /// number is not used again.
    pub fn remove_trace(&mut self, id: TraceId)
        requires
            old(self).wf(),
        ensures
            final(self).wf(),
            !has_trace(final(self).traces@, id),
            *final(self) == (Workspace {
                traces: final(self).traces,
                selected: final(self).selected,
                ..*old(self)
            }),
            forall|i: int|
                0 <= i < old(self).traces@.len() && (#[trigger] old(self).traces@[i]).id == id
                    ==> final(self).traces@ == old(self).traces@.remove(i),
            !has_trace(old(self).traces@, id) ==> final(self).traces@ == old(self).traces@,
            final(self).selected == if old(self).selected != Some(id) {
                old(self).selected
            } else if final(self).traces@.len() > 0 {
                Some(final(self).traces@.last().id)
            } else {
                None
            },
    {
        let Some(at) = trace_index(&self.traces, id) else {
            return;
        };
        let _removed = self.traces.remove(at);
        let ghost before = old(self).traces@;
        let ghost after = self.traces@;
        assert(after == before.remove(at as int));
        assert forall|i: int| 0 <= i < after.len() implies #[trigger] after[i] == if i < at {
            before[i]
        } else {
            before[i + 1]
        } by {}
        if self.selected == Some(id) {
            self.selected = if self.traces.len() > 0 {
                Some(self.traces[self.traces.len() - 1].id)
            } else {
                None
            };
            assert(after.len() > 0 ==> after[after.len() - 1].id == after.last().id);
        } else if let Some(kept) = self.selected {
            let ghost k = choose|k: int| 0 <= k < before.len() && (#[trigger] before[k]).id == kept;
            assert(k != at);
            assert(after[if k < at { k } else { k - 1 }].id == kept);
        }
        assert forall|i: int| 0 <= i < after.len() implies (#[trigger] after[i]).id != id by {
            if i >= at {
                assert(before[at as int].id != before[i + 1].id);
            }
        }
    }
}

proof fn lemma_format_names()
    ensures
        "ri"@ != "ma"@ && "ri"@ != "z"@ && "ri"@ != "loss"@ && "ri"@ != "vswr"@ && "ri"@ != "delay"@,
        "ma"@ != "z"@ && "ma"@ != "loss"@ && "ma"@ != "vswr"@ && "ma"@ != "delay"@,
        "z"@ != "loss"@ && "z"@ != "vswr"@ && "z"@ != "delay"@,
        "loss"@ != "vswr"@ && "loss"@ != "delay"@,
        "vswr"@ != "delay"@,
        ""@.len() == 0,
        "ri"@.len() > 0 && "ma"@.len() > 0 && "z"@.len() > 0 && "loss"@.len() > 0 && "vswr"@.len()
            > 0 && "delay"@.len() > 0,
{
    reveal_strlit("");
    reveal_strlit("ri");
    reveal_strlit("ma");
    reveal_strlit("z");
    reveal_strlit("loss");
    reveal_strlit("vswr");
    reveal_strlit("delay");
    assert("ri"@[0] == 'r' && "ma"@[0] == 'm' && "z"@[0] == 'z');
    assert("loss"@[0] == 'l' && "vswr"@[0] == 'v' && "delay"@[0] == 'd');
}

/// A reflection view asks for the rows whose quantity it shows: VSWR is asked
/// for as such, return loss as loss, the phase as magnitude and angle, and the
/// impedance with its parts and the Smith chart as impedance. So return loss and
/// VSWR, which both read the first column, never share a sweep.
pub proof fn law_reflections_ask_for_their_quantity(
    display: S11Display,
    other: S11Display,
    format: Format,
    shared: Format,
    name: &'static str,
)
    requires
        call_ensures(S11Display::wire_format, (display,), format),
        call_ensures(S11Display::wire_format, (other,), shared),
        call_ensures(Format::as_str, (format,), name),
    ensures
        name@ == "vswr"@ <==> display is Vswr,
        name@ == "loss"@ <==> display is ReturnLoss,
        name@ == "ma"@ <==> display is Phase,
        name@ == "z"@ <==> display is Impedance || display is Smith || display is Magnitude
            || display is Resistance || display is Reactance,
        format is Vswr <==> display is Vswr,
        format is Loss <==> display is ReturnLoss,
        format is Ma <==> display is Phase,
        format == shared ==> display == other || format is Z,
{
    lemma_format_names();
}

/// A transmission view asks for the rows whose quantity it shows, and no two of
/// them share a sweep.
pub proof fn law_transmissions_ask_for_their_quantity(
    display: S21Display,
    other: S21Display,
    format: Format,
    shared: Format,
    name: &'static str,
)
    requires
        call_ensures(S21Display::wire_format, (display,), format),
        call_ensures(S21Display::wire_format, (other,), shared),
        call_ensures(Format::as_str, (format,), name),
    ensures
        name@ == "ma"@ <==> display is Phase,
        name@ == "loss"@ <==> display is Loss,
        name@ == "delay"@ <==> display is Delay,
        format == shared ==> display == other,
{
    lemma_format_names();
}

/// Captions of the transmission views: each names its own quantity.
pub proof fn law_transmissions_are_named(display: S21Display, language: Language, caption: Caption)
    requires
        call_ensures(S21Display::label, (display, language), caption),
    ensures
        caption == (Caption::Entry { language, key: Text::S21Phase }) <==> display is Phase,
        caption == (Caption::Entry { language, key: Text::S21Loss }) <==> display is Loss,
        caption == (Caption::Entry { language, key: Text::S21Delay }) <==> display is Delay,
{
}

/// A projection takes the rows of its own receiver in the format that it asked
/// for, and no others. Two projections that take the same rows show the same
/// receiver, and show one column twice only where they are the same or where
/// one of them shows a whole impedance.
pub proof fn law_projections_take_what_they_asked_for(
    display: TraceDisplay,
    other: TraceDisplay,
    data: &SweepData,
    accepted: bool,
    shared: bool,
)
    requires
        call_ensures(TraceDisplay::accepts, (display, data), accepted),
        call_ensures(TraceDisplay::accepts, (other, data), shared),
    ensures
        display is Spec ==> accepted == (data.mode is Spec && data.format@.len() == 0),
        display is S11 ==> accepted == (data.mode is S11 && match display->S11_0 {
            S11Display::Phase => data.format@ == "ma"@,
            S11Display::ReturnLoss => data.format@ == "loss"@,
            S11Display::Vswr => data.format@ == "vswr"@,
            _ => data.format@ == "z"@,
        }),
        display is S21 ==> accepted == (data.mode is S21 && match display->S21_0 {
            S21Display::Phase => data.format@ == "ma"@,
            S21Display::Loss => data.format@ == "loss"@,
            S21Display::Delay => data.format@ == "delay"@,
        }),
        accepted && shared && display != other ==> display is S11 && other is S11 && data.format@
            == "z"@,
{
    lemma_format_names();
    if data.format@.len() == 0 {
        assert(data.format@ =~= ""@);
    }
}

/// Each projection names the receiver that it needs.
pub proof fn law_projections_name_their_receiver(display: TraceDisplay, mode: AppMode, smith: bool)
    requires
        call_ensures(TraceDisplay::mode, (display,), mode),
        call_ensures(TraceDisplay::is_smith, (display,), smith),
    ensures
        mode is Spec <==> display is Spec,
        mode is S11 <==> display is S11,
        mode is S21 <==> display is S21,
        smith <==> display == TraceDisplay::S11(S11Display::Smith),
{
}

/// The column of a quantity is where its wire format has it: an angle follows
/// its magnitude, resistance and reactance follow the magnitude of an impedance,
/// and a format of one quantity has it first. Views of a whole impedance take
/// all three, in that order. Markers are tied to the column of a view that has
/// one.
pub proof fn law_projections_read_their_columns(
    display: TraceDisplay,
    columns: Vec<usize>,
    fixed: Option<usize>,
)
    requires
        call_ensures(TraceDisplay::columns, (display,), columns),
        call_ensures(TraceDisplay::fixed_column, (display,), fixed),
    ensures
        fixed matches Some(column) ==> columns@.len() == 1 && columns@[0] == column,
        fixed is None <==> columns@.len() == 3,
        columns@.len() == 3 <==> display == TraceDisplay::S11(S11Display::Impedance) || display
            == TraceDisplay::S11(S11Display::Smith),
        columns@.len() == 3 ==> columns@[0] == 0 && columns@[1] == 1 && columns@[2] == 2,
        fixed == Some(1usize) <==> display == TraceDisplay::S11(S11Display::Phase) || display
            == TraceDisplay::S21(S21Display::Phase) || display == TraceDisplay::S11(
            S11Display::Resistance,
        ),
        fixed == Some(2usize) <==> display == TraceDisplay::S11(S11Display::Reactance),
        fixed is Some ==> fixed->0 <= 2,
{
}

/// A width that is drawn lies between half a point and five points. One in that
/// range stays as it is, others go to its nearer end, and what is no finite
/// number becomes one point.
pub proof fn law_widths_are_kept_in_range(width: Width, drawn: Width)
    requires
        call_ensures(Width::clamped, (width,), drawn),
    ensures
        0x3f00_0000 <= drawn.bits <= 0x40a0_0000,
        0x3f00_0000 <= width.bits <= 0x40a0_0000 ==> drawn == width,
        width.bits < 0x3f00_0000 || 0x8000_0000 <= width.bits < 0xff80_0000 ==> drawn.bits
            == 0x3f00_0000,
        0x40a0_0000 < width.bits < 0x7f80_0000 ==> drawn.bits == 0x40a0_0000,
        0x7f80_0000 <= width.bits < 0x8000_0000 || width.bits >= 0xff80_0000 ==> drawn.bits
            == 0x3f80_0000,
{
}

/// A trace shows rows that its projection can read: those of a sweep under way
/// as soon as there is one, and those of the last complete sweep until then.
pub proof fn law_traces_show_the_latest_rows(
    trace: &TraceState,
    data: Option<&SweepData>,
    complete: Option<Arc<CompletedSweep>>,
    compatible: bool,
)
    requires
        call_ensures(TraceState::display_data, (trace,), data),
        call_ensures(TraceState::completed_for_display, (trace,), complete),
        call_ensures(TraceState::overlays_compatible, (trace,), compatible),
    ensures
        data matches Some(data) ==> trace.settings.display.reads(data@),
        trace.preview is Some && trace.preview->0.data.points@.len() > 0
            && trace.settings.display.reads(trace.preview->0.data@) ==> data is Some && data->0@
            == trace.preview->0.data@,
        trace.preview is None || trace.preview->0.data.points@.len() == 0
            || !trace.settings.display.reads(trace.preview->0.data@) ==> (data is Some
            <==> complete is Some) && (data is Some ==> data->0@ == complete->0.data@)
            && compatible,
        complete is Some ==> complete == trace.completed,
        complete is Some <==> trace.completed is Some && trace.settings.display.reads(
            trace.completed->0.data@,
        ),
        compatible && data is Some && complete is Some && data->0@ != complete->0.data@
            ==> trace.completed->0.session_id == trace.preview->0.session_id
            && trace.completed->0.settings@ == trace.preview->0.group.settings@,
        trace.preview is Some && trace.preview->0.data.points@.len() > 0
            && trace.settings.display.reads(trace.preview->0.data@) && (trace.completed is None
            || trace.completed->0.session_id != trace.preview->0.session_id
            || trace.completed->0.settings@ != trace.preview->0.group.settings@) ==> !compatible,
{
    if trace.preview is Some {
        assert(trace.preview->0.data@.points.len() == trace.preview->0.data.points@.len());
    }
}

/// Traces are added at the end, under a number that was never used, up to ten of
/// them, and the new one is selected.
pub proof fn law_traces_get_new_numbers(
    workspace: &mut Workspace,
    settings: TraceSettings,
    view: PlotView,
    id: Option<TraceId>,
)
    requires
        old(workspace).wf(),
        call_ensures(Workspace::add_trace, (workspace, settings, view), id),
    ensures
        id is Some <==> old(workspace).traces@.len() < 10 && old(workspace).next_id < u64::MAX,
        id matches Some(id) ==> !has_trace(old(workspace).traces@, id) && final(workspace).selected
            == Some(id) && final(workspace).traces@.len() == old(workspace).traces@.len() + 1
            && final(workspace).traces@.last().id == id && final(workspace).traces@.last().settings
            == settings && final(workspace).next_id > id.0,
        forall|i: int|
            0 <= i < old(workspace).traces@.len() ==> #[trigger] final(workspace).traces@[i]
                == old(workspace).traces@[i],
        final(workspace).traces@.len() <= 10,
{
    if id is Some {
        assert forall|i: int| 0 <= i < old(workspace).traces@.len() implies #[trigger] final(workspace).traces@[i] == old(workspace).traces@[i] by {
            assert(final(workspace).traces@.drop_last()[i] == final(workspace).traces@[i]);
        }
        if has_trace(old(workspace).traces@, id->0) {
            let i = choose|i: int|
                0 <= i < old(workspace).traces@.len() && (
                #[trigger] old(workspace).traces@[i]).id == id->0;
            assert(old(workspace).traces@[i].id.0 < old(workspace).next_id);
        }
    }
}

/// Removing a trace removes it alone and keeps the order of the others. Where it
/// was selected, the last one is.
pub proof fn law_removed_traces_are_gone(workspace: &mut Workspace, id: TraceId, i: int)
    requires
        old(workspace).wf(),
        call_ensures(Workspace::remove_trace, (workspace, id), ()),
        0 <= i < old(workspace).traces@.len(),
    ensures
        ({
            let before = old(workspace).traces@;
            let after = final(workspace).traces@;
            &&& !has_trace(after, id)
            &&& before[i].id == id ==> after.len() == before.len() - 1
            &&& before[i].id == id ==> after.subrange(0, i) == before.subrange(0, i)
                && after.subrange(i, after.len() as int) == before.subrange(
                i + 1,
                before.len() as int,
            )
            &&& !has_trace(before, id) ==> after == before
            &&& old(workspace).selected != Some(id) ==> final(workspace).selected == old(workspace).selected
            &&& old(workspace).selected == Some(id) && after.len() > 0 ==> final(workspace).selected == Some(after.last().id)
            &&& old(workspace).selected == Some(id) && after.len() == 0 ==> final(workspace).selected is None
            &&& final(workspace).next_id == old(workspace).next_id && final(workspace).range
                == old(workspace).range && final(workspace).run == old(workspace).run
        }),
{
    let before = old(workspace).traces@;
    let after = final(workspace).traces@;
    if before[i].id == id {
        assert(after == before.remove(i));
        assert(after.subrange(0, i) =~= before.subrange(0, i));
        assert(after.subrange(i, after.len() as int) =~= before.subrange(
            i + 1,
            before.len() as int,
        ));
    }
}

/// A new trace has measured nothing, is fitted to what comes, and looks at the
/// column of its projection. A new workspace has no trace and the number one for
/// the first.
pub proof fn law_new_traces_are_empty(
    id: TraceId,
    settings: TraceSettings,
    view: PlotView,
    trace: TraceState,
    fixed: Option<usize>,
    range: SweepRange,
    smith: SmithView,
    workspace: Workspace,
)
    requires
        call_ensures(TraceState::new, (id, settings, view), trace),
        call_ensures(TraceDisplay::fixed_column, (settings.display,), fixed),
        call_ensures(Workspace::empty, (range, view, smith), workspace),
    ensures
        trace.id == id && trace.settings == settings && trace.view == view,
        trace.completed is None && trace.preview is None && trace.last_completed_cycle is None,
        trace.needs_fit && !trace.view_locked,
        trace.analysis.markers@.len() == 0 && trace.analysis.latest is None
            && trace.analysis.trace_id == id.0,
        !trace.analysis.hold && !trace.analysis.max_hold && !trace.analysis.min_hold,
        trace.analysis.target is Current && trace.analysis.fixed_column == fixed,
        fixed matches Some(column) ==> trace.analysis.column == column,
        fixed is None ==> trace.analysis.column == 0,
        workspace.range == range && workspace.x_view == view && workspace.smith == smith,
        workspace.traces@.len() == 0 && workspace.next_id == 1 && workspace.selected is None,
        workspace.sweep_mode is Range && !workspace.log_x && workspace.segments@.len() == 0
            && workspace.frequencies_hz@.len() == 0,
{
}

/// A trace is found by its number, and the first one with it.
pub proof fn law_traces_are_found_by_number(
    traces: &Vec<TraceState>,
    id: TraceId,
    index: Option<usize>,
    i: int,
)
    requires
        call_ensures(trace_index, (traces, id), index),
        0 <= i < traces@.len(),
    ensures
        index is Some ==> index->0 < traces@.len() && traces@[index->0 as int].id == id,
        traces@[i].id == id ==> index is Some && index->0 <= i,
{
}

/// A projection belongs to the mode of its measurement, and the columns that it
/// draws are those of its quantities. An impedance and a Smith chart draw three.
pub proof fn law_projections_draw_their_columns(
    display: TraceDisplay,
    mode: AppMode,
    smith: bool,
    columns: Vec<usize>,
)
    requires
        call_ensures(TraceDisplay::mode, (display,), mode),
        call_ensures(TraceDisplay::is_smith, (display,), smith),
        call_ensures(TraceDisplay::columns, (display,), columns),
    ensures
        mode is Spec <==> display is Spec,
        mode is S11 <==> display is S11,
        mode is S21 <==> display is S21,
        smith <==> display == TraceDisplay::S11(S11Display::Smith),
        columns@.len() == 3 <==> display == TraceDisplay::S11(S11Display::Impedance) || smith,
        columns@.len() == 3 ==> columns@[0] == 0 && columns@[1] == 1 && columns@[2] == 2,
        columns@.len() == 1 || columns@.len() == 3,
        columns@.len() == 1 ==> (columns@[0] == 1 <==> display == TraceDisplay::S11(
            S11Display::Phase,
        ) || display == TraceDisplay::S11(S11Display::Resistance) || display == TraceDisplay::S21(
            S21Display::Phase,
        )),
        columns@.len() == 1 ==> (columns@[0] == 2 <==> display == TraceDisplay::S11(
            S11Display::Reactance,
        )),
        columns@[0] <= 2,
{
}

} // verus!
