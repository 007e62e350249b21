//! User settings as they are stored between sessions.
//!
//! Only settings of the interface are stored, never measurements and never a
//! running operation. What floating-point arithmetic and the driver's own
//! names say of them is handed in as plain facts.

use std::path::PathBuf;
use vstd::prelude::*;

use crate::acquisition::{RunSettings, TraceId, MAX_TRACES};
use crate::analysis_tools;
use crate::analysis_tools::{AnalysisConfig, Color, OverlayVisibilityConfig};
use crate::calibration_panel::CalibrationUi;
use crate::desktop::{DesktopConfig, DesktopState, DeviceProfile, LanguagePreference};
use crate::messages::{InstrumentFunction, SweepState};
use crate::model::{copied, Cal, ConnectionTarget, Lo, Rbw, Real, DEFAULT_PORT, MAX_SEGMENTS};
use crate::state::{AppState, SourceConfig, SourceUi};
use crate::text;
use crate::text::{same_text, trim, Language};
use crate::workspace;
use crate::workspace::{
    AppMode, PlotView, S11Display, S21Display, SegmentDefinition, SmithView, SweepMode, SweepRange,
    TraceDisplay, TraceSettings, TraceState, Width, Workspace, YScale,
};

verus! {

/// Environment variable that names another file for the settings.
pub const ENV_CONFIG_PATH: &'static str = "KCSDI_CONFIG_PATH";

/// Version of the settings that are written.
pub const CONFIG_VERSION: u32 = 10;

/// Version of a file that names none.
pub fn legacy_config_version() -> (version: u32)
    ensures
        version == 1,
{
    1
}

pub open spec fn mode_name(mode: AppMode) -> Seq<char> {
    match mode {
        AppMode::Spec => "spec"@,
        AppMode::S11 => "s11"@,
        AppMode::S21 => "s21"@,
    }
}

/// Key of a mode.
pub fn mode_as_str(mode: AppMode) -> (name: &'static str)
    ensures
        name@ == mode_name(mode),
{
    match mode {
        AppMode::Spec => "spec",
        AppMode::S11 => "s11",
        AppMode::S21 => "s21",
    }
}

/// The mode that an early file selects. There was no transmission then.
pub open spec fn mode_of(name: Seq<char>) -> AppMode {
    if name == "s11"@ {
        AppMode::S11
    } else {
        AppMode::Spec
    }
}

pub fn parse_mode(s: &str) -> (mode: AppMode)
    ensures
        mode == mode_of(s@),
{
    if same_text(s, "s11") {
        AppMode::S11
    } else {
        AppMode::Spec
    }
}

pub open spec fn display_name(display: S11Display) -> Seq<char> {
    match display {
        S11Display::Phase => "phase"@,
        S11Display::ReturnLoss => "return_loss"@,
        S11Display::Vswr => "vswr"@,
        S11Display::Smith => "smith"@,
        S11Display::Impedance => "impedance"@,
        S11Display::Magnitude => "magnitude"@,
        S11Display::Resistance => "resistance"@,
        S11Display::Reactance => "reactance"@,
    }
}

/// Key of a reflection display.
pub fn display_as_str(display: S11Display) -> (name: &'static str)
    ensures
        name@ == display_name(display),
{
    match display {
        S11Display::Phase => "phase",
        S11Display::ReturnLoss => "return_loss",
        S11Display::Vswr => "vswr",
        S11Display::Smith => "smith",
        S11Display::Impedance => "impedance",
        S11Display::Magnitude => "magnitude",
        S11Display::Resistance => "resistance",
        S11Display::Reactance => "reactance",
    }
}

/// The reflection display that a key names. Unknown keys show return loss.
pub open spec fn display_of(name: Seq<char>) -> S11Display {
    if name == "phase"@ {
        S11Display::Phase
    } else if name == "vswr"@ {
        S11Display::Vswr
    } else if name == "smith"@ {
        S11Display::Smith
    } else if name == "impedance"@ {
        S11Display::Impedance
    } else if name == "magnitude"@ {
        S11Display::Magnitude
    } else if name == "resistance"@ {
        S11Display::Resistance
    } else if name == "reactance"@ {
        S11Display::Reactance
    } else {
        S11Display::ReturnLoss
    }
}

pub fn parse_display(s: &str) -> (display: S11Display)
    ensures
        display == display_of(s@),
{
    if same_text(s, "phase") {
        S11Display::Phase
    } else if same_text(s, "vswr") {
        S11Display::Vswr
    } else if same_text(s, "smith") {
        S11Display::Smith
    } else if same_text(s, "impedance") {
        S11Display::Impedance
    } else if same_text(s, "magnitude") {
        S11Display::Magnitude
    } else if same_text(s, "resistance") {
        S11Display::Resistance
    } else if same_text(s, "reactance") {
        S11Display::Reactance
    } else {
        S11Display::ReturnLoss
    }
}

/// Key of a trace's projection.
pub open spec fn projection_name(display: TraceDisplay) -> Seq<char> {
    match display {
        TraceDisplay::Spec => "spec"@,
        TraceDisplay::S11(display) => display_name(display),
        TraceDisplay::S21(S21Display::Phase) => "s21_phase"@,
        TraceDisplay::S21(S21Display::Loss) => "s21_loss"@,
        TraceDisplay::S21(S21Display::Delay) => "s21_delay"@,
    }
}

/// The projection that a key names. Unknown keys show the spectrum.
pub open spec fn projection_of(name: Seq<char>) -> TraceDisplay {
    if name == "s21_phase"@ {
        TraceDisplay::S21(S21Display::Phase)
    } else if name == "s21_loss"@ {
        TraceDisplay::S21(S21Display::Loss)
    } else if name == "s21_delay"@ {
        TraceDisplay::S21(S21Display::Delay)
    } else if name == "phase"@ || name == "return_loss"@ || name == "vswr"@ || name == "smith"@
        || name == "impedance"@ || name == "magnitude"@ || name == "resistance"@ || name
        == "reactance"@ {
        TraceDisplay::S11(display_of(name))
    } else {
        TraceDisplay::Spec
    }
}

fn parse_projection(name: &str) -> (display: TraceDisplay)
    ensures
        display == projection_of(name@),
{
    if same_text(name, "s21_phase") {
        TraceDisplay::S21(S21Display::Phase)
    } else if same_text(name, "s21_loss") {
        TraceDisplay::S21(S21Display::Loss)
    } else if same_text(name, "s21_delay") {
        TraceDisplay::S21(S21Display::Delay)
    } else if same_text(name, "phase") || same_text(name, "return_loss") || same_text(name, "vswr")
        || same_text(name, "smith") || same_text(name, "impedance") || same_text(
        name,
        "magnitude",
    ) || same_text(name, "resistance") || same_text(name, "reactance") {
        TraceDisplay::S11(parse_display(name))
    } else {
        TraceDisplay::Spec
    }
}

/// The names of all projections differ, and each key names its projection.
pub proof fn law_projection_names_come_back(display: TraceDisplay)
    ensures
        projection_of(projection_name(display)) == display,
        display matches TraceDisplay::S11(shown) ==> display_of(display_name(shown)) == shown,
{
    reveal_strlit("spec");
    reveal_strlit("phase");
    reveal_strlit("return_loss");
    reveal_strlit("vswr");
    reveal_strlit("smith");
    reveal_strlit("impedance");
    reveal_strlit("magnitude");
    reveal_strlit("resistance");
    reveal_strlit("reactance");
    reveal_strlit("s21_phase");
    reveal_strlit("s21_loss");
    reveal_strlit("s21_delay");
    assert("spec"@.len() == 4);
    assert("phase"@.len() == 5);
    assert("return_loss"@.len() == 11);
    assert("vswr"@.len() == 4);
    assert("smith"@.len() == 5);
    assert("impedance"@.len() == 9);
    assert("magnitude"@.len() == 9);
    assert("resistance"@.len() == 10);
    assert("reactance"@.len() == 9);
    assert("s21_phase"@.len() == 9);
    assert("s21_loss"@.len() == 8);
    assert("s21_delay"@.len() == 9);
    assert("impedance"@[0] == 'i');
    assert("magnitude"@[0] == 'm');
    assert("reactance"@[0] == 'r');
    assert("s21_phase"@[0] == 's' && "s21_phase"@[4] == 'p');
    assert("s21_delay"@[0] == 's' && "s21_delay"@[4] == 'd');
    assert("phase"@[0] == 'p');
    assert("smith"@[0] == 's');
    assert("vswr"@[0] == 'v');
    assert("spec"@[0] == 's');
}

/// Visible frequencies of all charts.
#[derive(Debug, Clone, Copy, PartialEq, Eq, Structural)]
pub struct XViewConfig {
    pub min: Real,
    pub max: Real,
}

/// Vertical axis of one trace.
#[derive(Debug, Clone, Copy, PartialEq, Eq, Structural)]
pub struct YViewConfig {
    pub min: Real,
    pub max: Real,
    pub divisions: usize,
    pub locked: bool,
    pub log_y: bool,
}

impl Default for YViewConfig {
    fn default() -> (view: Self)
        ensures
            view == (YViewConfig {
                min: Real { bits: 0 },
                max: Real { bits: 0x3ff0_0000_0000_0000 },
                divisions: 8,
                locked: false,
                log_y: false,
            }),
    {
        YViewConfig {
            min: Real { bits: 0 },
            max: Real { bits: 0x3ff0_0000_0000_0000 },
            divisions: 8,
            locked: false,
            log_y: false,
        }
    }
}

/// What floating-point arithmetic says of a range from `min` to `max`.
#[derive(Debug, Clone, Copy, PartialEq, Eq, Structural)]
pub struct SpanFacts {
    /// `max - min`.
    pub difference: Real,
    /// `min + max`.
    pub sum: Real,
    /// `max - min` divided by the number of divisions that are drawn.
    pub division: Real,
    /// Decimal logarithms of both ends.
    pub log_min: Real,
    pub log_max: Real,
}

/// Whether a range can be drawn at all: both ends are finite, in order, and not
/// too far apart.
pub open spec fn drawable(min: Real, max: Real, facts: SpanFacts) -> bool {
    min.finite() && max.finite() && min.below(max) && facts.difference.finite()
}

pub fn valid_span(min: Real, max: Real, facts: &SpanFacts) -> (valid: bool)
    ensures
        valid == drawable(min, max, *facts),
{
    min.is_finite() && max.is_finite() && min.less(max) && facts.difference.is_finite()
}

/// Zero.
pub open spec fn zero() -> Real {
    Real { bits: 0 }
}

impl YViewConfig {
    /// Whether the axis can be drawn: its middle is finite, and its divisions do
    /// not vanish.
    pub open spec fn usable(self, facts: SpanFacts) -> bool {
        drawable(self.min, self.max, facts) && facts.sum.finite() && zero().below(facts.division)
    }

    pub fn valid(self, facts: &SpanFacts) -> (valid: bool)
        ensures
            valid == self.usable(*facts),
    {
        valid_span(self.min, self.max, facts) && facts.sum.is_finite() && (Real { bits: 0 }).less(
            facts.division,
        )
    }

    /// Whether the axis can be drawn on a scale that starts at `floor`.
    pub open spec fn fits_scale(self, floor: Option<Real>, facts: SpanFacts) -> bool {
        self.usable(facts) && match floor {
            Some(floor) => (floor.below(self.min) || floor.equals(self.min))
                && facts.log_min.below(facts.log_max),
            None => true,
        }
    }

    pub fn valid_on(self, floor: Option<Real>, facts: &SpanFacts) -> (valid: bool)
        ensures
            valid == self.fits_scale(floor, *facts),
    {
        self.valid(facts) && match floor {
            Some(floor) => (floor.less(self.min) || floor.same(self.min)) && facts.log_min.less(
                facts.log_max,
            ),
            None => true,
        }
    }
}

/// What is known of the frequencies that the workspace covers.
#[derive(Debug, Clone, Copy, PartialEq, Eq, Structural)]
pub struct RangeFacts {
    pub start_hz: Real,
    pub stop_hz: Real,
    pub span: SpanFacts,
    /// Distance of two neighbouring points.
    pub step: Real,
    /// One tenth of the end.
    pub tenth: Real,
    /// The range from the step, or from the tenth, to the end.
    pub raised: SpanFacts,
    /// The first positive frequency of the grid.
    pub positive: Option<Real>,
    /// The range of a new workspace.
    pub standard: XViewConfig,
}

impl XViewConfig {
    /// Whether the frequencies can be drawn. A logarithmic axis needs positive
    /// ones whose logarithms differ.
    pub open spec fn usable(self, log_x: bool, facts: SpanFacts) -> bool {
        drawable(self.min, self.max, facts) && (log_x ==> zero().below(self.min)
            && facts.log_min.below(facts.log_max))
    }

    pub fn valid(self, log_x: bool, facts: &SpanFacts) -> (valid: bool)
        ensures
            valid == self.usable(log_x, *facts),
    {
        valid_span(self.min, self.max, facts) && (!log_x || ((Real { bits: 0 }).less(self.min)
            && facts.log_min.less(facts.log_max)))
    }

    /// Whether a logarithmic axis has to leave out the lower end.
    pub open spec fn starts_too_low(log_x: bool, facts: RangeFacts) -> bool {
        &&& log_x
        &&& drawable(facts.start_hz, facts.stop_hz, facts.span)
        &&& facts.start_hz.rank() <= 0
        &&& zero().below(facts.stop_hz)
    }

    /// Where a logarithmic axis starts that would start too low: one step above
    /// zero, or at a tenth of the end.
    pub open spec fn raised(step: Real, tenth: Real, stop_hz: Real) -> Real {
        if zero().below(step) && step.below(stop_hz) {
            step
        } else {
            tenth
        }
    }

    pub fn raised_start(step: Real, tenth: Real, stop_hz: Real) -> (start: Real)
        ensures
            start == XViewConfig::raised(step, tenth, stop_hz),
    {
        if (Real { bits: 0 }).less(step) && step.less(stop_hz) {
            step
        } else {
            tenth
        }
    }

    /// The frequencies that show a whole range. A logarithmic axis that would
    /// start too low starts one step above zero, or at a tenth of the end.
    pub open spec fn whole_range(log_x: bool, facts: RangeFacts) -> XViewConfig {
        let raised = XViewConfig::starts_too_low(log_x, facts);
        let view = XViewConfig {
            min: if !raised {
                facts.start_hz
            } else {
                XViewConfig::raised(facts.step, facts.tenth, facts.stop_hz)
            },
            max: facts.stop_hz,
        };
        if view.usable(
            log_x,
            if raised {
                facts.raised
            } else {
                facts.span
            },
        ) {
            view
        } else {
            facts.standard
        }
    }

    pub fn for_range(log_x: bool, facts: &RangeFacts) -> (view: XViewConfig)
        ensures
            view == XViewConfig::whole_range(log_x, *facts),
    {
        let none = Real { bits: 0 };
        let raised = log_x && valid_span(facts.start_hz, facts.stop_hz, &facts.span)
            && !none.less(facts.start_hz) && none.less(facts.stop_hz);
        let view = XViewConfig {
            min: if !raised {
                facts.start_hz
            } else {
                XViewConfig::raised_start(facts.step, facts.tenth, facts.stop_hz)
            },
            max: facts.stop_hz,
        };
        let valid = if raised {
            view.valid(log_x, &facts.raised)
        } else {
            view.valid(log_x, &facts.span)
        };
        if valid {
            view
        } else {
            facts.standard
        }
    }

    /// The frequencies that show a whole workspace. A logarithmic axis starts at
    /// the first positive point of the grid.
    pub open spec fn whole_workspace(log_x: bool, facts: RangeFacts) -> XViewConfig {
        let view = XViewConfig::whole_range(log_x, facts);
        match facts.positive {
            Some(positive) => if log_x && !facts.start_hz.is_nan() && facts.start_hz.rank() <= 0
                && positive.below(facts.stop_hz) {
                XViewConfig { min: positive, max: view.max }
            } else {
                view
            },
            None => view,
        }
    }

    pub fn for_workspace(log_x: bool, facts: &RangeFacts) -> (view: XViewConfig)
        ensures
            view == XViewConfig::whole_workspace(log_x, *facts),
    {
        let mut view = XViewConfig::for_range(log_x, facts);
        let none = Real { bits: 0 };
        if log_x && (facts.start_hz.less(none) || facts.start_hz.same(none)) {
            if let Some(positive) = facts.positive {
                if positive.less(facts.stop_hz) {
                    view.min = positive;
                }
            }
        }
        view
    }
}

/// The view of a whole range can always be drawn, given that the range of a new
/// workspace can.
pub proof fn law_whole_ranges_are_drawable(log_x: bool, facts: RangeFacts, standard: SpanFacts)
    requires
        facts.standard.usable(log_x, standard),
    ensures
        ({
            let view = XViewConfig::whole_range(log_x, facts);
            view.usable(log_x, facts.span) || view.usable(log_x, facts.raised) || view.usable(
                log_x,
                standard,
            )
        }),
{
}

/// Number of divisions within what a chart draws.
pub open spec fn drawn_divisions(divisions: usize) -> usize {
    if divisions < 2 {
        2
    } else if divisions > 30 {
        30
    } else {
        divisions
    }
}

pub fn clamp_divisions(divisions: usize) -> (drawn: usize)
    ensures
        drawn == drawn_divisions(divisions),
{
    if divisions < 2 {
        2
    } else if divisions > 30 {
        30
    } else {
        divisions
    }
}

/// Zoom and pan of the Smith chart.
#[derive(Debug, Clone, Copy, PartialEq, Eq, Structural)]
pub struct SmithViewConfig {
    pub zoom: Real,
    pub dx: Real,
    pub dy: Real,
}

impl Default for SmithViewConfig {
    fn default() -> (view: Self)
        ensures
            view == SmithViewConfig::centred(),
    {
        SmithViewConfig {
            zoom: Real { bits: 0x3ff0_0000_0000_0000 },
            dx: Real { bits: 0 },
            dy: Real { bits: 0 },
        }
    }
}

/// Largest pan. Beyond it, mapped coordinates could overflow single precision
/// at the largest zoom in a viewport of a million pixels.
pub open spec fn pan_limit() -> Real {
    Real { bits: 0x4635_798e_ccb6_fd58 }
}

/// A pan that can be mapped, or none.
pub open spec fn usable_pan(offset: Real) -> Real {
    if offset.finite() && offset.magnitude() <= pan_limit().magnitude() {
        offset
    } else {
        Real { bits: 0 }
    }
}

fn restore_pan(offset: Real) -> (pan: Real)
    ensures
        pan == usable_pan(offset),
{
    let magnitude: u64 = if offset.bits >= 0x8000_0000_0000_0000 {
        offset.bits - 0x8000_0000_0000_0000
    } else {
        offset.bits
    };
    if offset.is_finite() && magnitude <= 0x4635_798e_ccb6_fd58 {
        offset
    } else {
        Real { bits: 0 }
    }
}

/// A zoom between one fifth and two hundred, and none where it is no finite
/// number.
pub open spec fn usable_zoom(zoom: Real) -> Real {
    if !zoom.finite() {
        Real { bits: 0x3ff0_0000_0000_0000 }
    } else if zoom.rank() < (Real { bits: 0x3fc9_9999_9999_999a }).rank() {
        Real { bits: 0x3fc9_9999_9999_999a }
    } else if zoom.rank() > (Real { bits: 0x4069_0000_0000_0000 }).rank() {
        Real { bits: 0x4069_0000_0000_0000 }
    } else {
        zoom
    }
}

impl SmithViewConfig {
    /// No zoom and no pan.
    pub open spec fn centred() -> SmithViewConfig {
        SmithViewConfig {
            zoom: Real { bits: 0x3ff0_0000_0000_0000 },
            dx: Real { bits: 0 },
            dy: Real { bits: 0 },
        }
    }

    pub open spec fn restored(self) -> SmithView {
        SmithView {
            zoom: usable_zoom(self.zoom),
            dx: usable_pan(self.dx),
            dy: usable_pan(self.dy),
        }
    }

    /// A view that the chart can map.
    pub fn restore(self) -> (view: SmithView)
        ensures
            view == self.restored(),
    {
        let low = Real { bits: 0x3fc9_9999_9999_999a };
        let high = Real { bits: 0x4069_0000_0000_0000 };
        let zoom: Real = if !self.zoom.is_finite() {
            Real { bits: 0x3ff0_0000_0000_0000 }
        } else if self.zoom.less(low) {
            low
        } else if high.less(self.zoom) {
            high
        } else {
            self.zoom
        };
        SmithView { zoom, dx: restore_pan(self.dx), dy: restore_pan(self.dy) }
    }
}

/// Restoring a view twice changes nothing more.
pub proof fn law_smith_views_settle(view: SmithViewConfig)
    ensures
        ({
            let once = view.restored();
            SmithViewConfig { zoom: once.zoom, dx: once.dx, dy: once.dy }.restored() == once
        }),
{
}

/// Definition of one trace.
#[derive(Debug, PartialEq, Eq)]
pub struct TraceConfig {
    pub id: TraceId,
    pub display: String,
    pub cal: String,
    pub rbw: String,
    pub lo: String,
    pub ref_level_dbm: i32,
    pub visible: bool,
    pub color: Color,
    pub line_width: Width,
    pub impedance_visible: [bool; 3],
    pub y_view: Option<YViewConfig>,
    pub analysis: Option<AnalysisConfig>,
}

/// The driver's names of a trace's receiver settings.
#[derive(Debug, PartialEq, Eq)]
pub struct WireNames {
    pub cal: String,
    pub rbw: String,
    pub lo: String,
}

/// What is known of a trace that is stored.
#[derive(Debug)]
pub struct StoredTrace {
    pub names: WireNames,
    /// The vertical axis.
    pub y: SpanFacts,
    /// The projection's own vertical range.
    pub default_y: (Real, Real),
}

/// What is known of a trace that is restored.
#[derive(Debug, Clone, Copy)]
pub struct RestoredTrace {
    /// What the driver makes of the stored names.
    pub cal: Option<Cal>,
    pub rbw: Option<Rbw>,
    pub lo: Option<Lo>,
    /// The view of a new trace with this projection.
    pub view: PlotView,
    /// The vertical range that the chart shows on the scale that the trace gets
    /// where the stored one cannot be drawn.
    pub fallback: (Real, Real),
    /// The logarithmic scale that the projection has.
    pub log_scale: Option<YScale>,
    /// Where the scale that the trace gets starts, if it starts anywhere.
    pub floor: Option<Real>,
    /// The stored vertical axis.
    pub y: SpanFacts,
}

impl TraceConfig {
    /// Whether these are a trace's settings in words.
    pub open spec fn names(self, id: TraceId, settings: TraceSettings, names: WireNames) -> bool {
        &&& self.id == id
        &&& self.display@ == projection_name(settings.display)
        &&& self.cal@ == names.cal@
        &&& self.rbw@ == names.rbw@
        &&& self.lo@ == names.lo@
        &&& self.ref_level_dbm == settings.ref_level_dbm
        &&& self.visible == settings.visible
        &&& self.color == settings.color
        &&& self.line_width == settings.line_width
        &&& self.impedance_visible == settings.impedance_visible
    }

    pub fn from_settings(id: TraceId, settings: &TraceSettings, names: &WireNames) -> (config: Self)
        ensures
            config.names(id, *settings, *names),
            config.y_view is None,
            config.analysis is None,
    {
        TraceConfig {
            id,
            display: match settings.display {
                TraceDisplay::Spec => "spec",
                TraceDisplay::S11(display) => display_as_str(display),
                TraceDisplay::S21(S21Display::Phase) => "s21_phase",
                TraceDisplay::S21(S21Display::Loss) => "s21_loss",
                TraceDisplay::S21(S21Display::Delay) => "s21_delay",
            }.to_owned(),
            cal: names.cal.clone(),
            rbw: names.rbw.clone(),
            lo: names.lo.clone(),
            ref_level_dbm: settings.ref_level_dbm,
            visible: settings.visible,
            color: settings.color,
            line_width: settings.line_width,
            impedance_visible: settings.impedance_visible,
            y_view: None,
            analysis: None,
        }
    }

    /// The definition that stands for whatever a stored one leaves out: the first
    /// trace with these settings, without an axis and without an analysis.
    pub fn standard(settings: &TraceSettings, names: &WireNames) -> (config: Self)
        ensures
            config.names(TraceId(1), *settings, *names),
            config.y_view is None,
            config.analysis is None,
    {
        TraceConfig::from_settings(TraceId(1), settings, names)
    }

    /// The vertical axis of a trace.
    pub open spec fn current_y(trace: TraceState) -> YViewConfig {
        YViewConfig {
            min: trace.view.y_min,
            max: trace.view.y_max,
            divisions: trace.view.y_divisions,
            locked: trace.view_locked,
            log_y: !(trace.view.y_scale is Linear),
        }
    }

    /// The vertical axis that is stored for a trace.
    pub open spec fn stored_y(trace: TraceState, facts: StoredTrace) -> YViewConfig {
        let view = TraceConfig::current_y(trace);
        let valid = view.usable(facts.y);
        YViewConfig {
            min: if valid {
                view.min
            } else {
                facts.default_y.0
            },
            max: if valid {
                view.max
            } else {
                facts.default_y.1
            },
            divisions: drawn_divisions(view.divisions),
            locked: valid && view.locked,
            log_y: view.log_y,
        }
    }

    /// Whether this is a trace's definition as it is stored.
    pub open spec fn is_stored(self, trace: TraceState, facts: StoredTrace) -> bool {
        &&& self.names(trace.id, trace.settings, facts.names)
        &&& self.y_view == Some(TraceConfig::stored_y(trace, facts))
        &&& self.analysis is Some
        &&& self.analysis->0.markers@ == trace.analysis.markers@
        &&& self.analysis->0.next_id == trace.analysis.next_id
        &&& self.analysis->0.hold == trace.analysis.hold
        &&& self.analysis->0.max_hold == trace.analysis.max_hold
        &&& self.analysis->0.min_hold == trace.analysis.min_hold
        &&& self.analysis->0.column == trace.analysis.column
        &&& self.analysis->0.target == trace.analysis.target
        &&& analysis_tools::entry_models(self.analysis->0.overlay_visibility@)
            == analysis_tools::entry_models(trace.analysis.overlay_visibility@)
    }

    pub fn from_trace(trace: &TraceState, facts: &StoredTrace) -> (config: Self)
        ensures
            config.is_stored(*trace, *facts),
    {
        let mut config = TraceConfig::from_settings(trace.id, &trace.settings, &facts.names);
        let view = YViewConfig {
            min: trace.view.y_min,
            max: trace.view.y_max,
            divisions: trace.view.y_divisions,
            locked: trace.view_locked,
            log_y: !matches!(trace.view.y_scale, YScale::Linear),
        };
        let valid = view.valid(&facts.y);
        let (min, max): (Real, Real) = if valid {
            (view.min, view.max)
        } else {
            facts.default_y
        };
        config.y_view = Some(
            YViewConfig {
                min,
                max,
                divisions: clamp_divisions(view.divisions),
                locked: valid && view.locked,
                log_y: view.log_y,
            },
        );
        config.analysis = Some(trace.analysis.config());
        config
    }

    /// The settings that a definition stands for. Names that nobody knows fall
    /// back to no correction, 10 kHz and the high side.
    pub open spec fn spec_settings(self, facts: RestoredTrace) -> TraceSettings {
        TraceSettings {
            display: projection_of(self.display@),
            cal: match facts.cal {
                Some(cal) => cal,
                None => Cal::CalOff,
            },
            rbw: match facts.rbw {
                Some(rbw) => rbw,
                None => Rbw { hz: 10_000 },
            },
            lo: match facts.lo {
                Some(lo) => lo,
                None => Lo::HighLo,
            },
            ref_level_dbm: self.ref_level_dbm,
            visible: self.visible,
            color: self.color,
            line_width: self.line_width.drawn(),
            impedance_visible: self.impedance_visible,
        }
    }

    pub fn settings(&self, facts: &RestoredTrace) -> (settings: TraceSettings)
        ensures
            settings == self.spec_settings(*facts),
    {
        TraceSettings {
            display: parse_projection(self.display.as_str()),
            cal: match facts.cal {
                Some(cal) => cal,
                None => Cal::CalOff,
            },
            rbw: match facts.rbw {
                Some(rbw) => rbw,
                None => Rbw { hz: 10_000 },
            },
            lo: match facts.lo {
                Some(lo) => lo,
                None => Lo::HighLo,
            },
            ref_level_dbm: self.ref_level_dbm,
            visible: self.visible,
            color: self.color,
            line_width: self.line_width.clamped(),
            impedance_visible: self.impedance_visible,
        }
    }

    /// The scale of a restored trace's vertical axis.
    pub open spec fn spec_scale(self, facts: RestoredTrace) -> YScale {
        if self.y_view is Some && self.y_view->0.log_y && facts.log_scale is Some {
            facts.log_scale->0
        } else {
            facts.view.y_scale
        }
    }

    pub fn scale(&self, facts: &RestoredTrace) -> (scale: YScale)
        ensures
            scale == self.spec_scale(*facts),
    {
        match (self.y_view, facts.log_scale) {
            (Some(view), Some(logarithmic)) => {
                if view.log_y {
                    logarithmic
                } else {
                    facts.view.y_scale
                }
            },
            _ => facts.view.y_scale,
        }
    }

    /// The view that a restored trace has.
    pub open spec fn restored_view(self, facts: RestoredTrace, x_view: XViewConfig) -> PlotView {
        let fresh = PlotView { x_min: x_view.min, x_max: x_view.max, ..facts.view };
        match self.y_view {
            None => fresh,
            Some(view) => PlotView {
                y_scale: self.spec_scale(facts),
                y_divisions: drawn_divisions(view.divisions),
                y_min: if view.fits_scale(facts.floor, facts.y) {
                    view.min
                } else {
                    facts.fallback.0
                },
                y_max: if view.fits_scale(facts.floor, facts.y) {
                    view.max
                } else {
                    facts.fallback.1
                },
                ..fresh
            },
        }
    }

    /// Whether this is the analysis of a restored trace: as the projection asks
    /// for it, with the stored settings and without any measurement.
    pub open spec fn is_analysis(
        analysis: analysis_tools::AnalysisTools,
        config: AnalysisConfig,
        id: TraceId,
        display: TraceDisplay,
    ) -> bool {
        let markers = analysis_tools::restored_markers(config.markers@, config.markers@.len() as int);
        &&& analysis.wf()
        &&& analysis.trace_id == id.0
        &&& analysis.latest is None
        &&& analysis.held is None && analysis.maxima is None && analysis.minima is None
        &&& analysis.rendered_overlays@.len() == 0
        &&& analysis.markers@ == analysis_tools::smith_markers(
            analysis_tools::normalized_markers(markers),
            display.smith(),
        )
        &&& analysis.next_id == analysis_tools::largest_id(markers, config.next_id)
        &&& analysis.hold == config.hold
        &&& analysis.max_hold == config.max_hold
        &&& analysis.min_hold == config.min_hold
        &&& analysis.fixed_column == display.spec_fixed_column()
        &&& analysis.column == match display.spec_fixed_column() {
            Some(column) => column,
            None => if config.column < 2 {
                config.column
            } else {
                2
            },
        }
        &&& analysis.restored_column
        &&& analysis.smith == display.smith()
        &&& analysis.target == analysis_tools::smith_target(config.target, display.smith())
        &&& analysis_tools::entry_models(analysis.overlay_visibility@)
            == analysis_tools::restored_entries(
            config.overlay_visibility@,
            config.overlay_visibility@.len() as int,
        )
    }

    /// Whether this is the trace that a definition stands for.
    pub open spec fn is_restored(
        self,
        trace: TraceState,
        facts: RestoredTrace,
        x_view: XViewConfig,
    ) -> bool {
        &&& trace.id == self.id
        &&& trace.settings == self.spec_settings(facts)
        &&& trace.completed is None
        &&& trace.preview is None
        &&& trace.last_completed_cycle is None
        &&& trace.view == self.restored_view(facts, x_view)
        &&& trace.view_locked == (self.y_view is Some && self.y_view->0.fits_scale(
            facts.floor,
            facts.y,
        ) && self.y_view->0.locked)
        &&& trace.needs_fit == !trace.view_locked
        &&& match self.analysis {
            Some(config) => TraceConfig::is_analysis(
                trace.analysis,
                config,
                self.id,
                projection_of(self.display@),
            ),
            None => exists|fresh: TraceState|
                {
                    &&& #[trigger] fresh.is_new(
                        self.id,
                        self.spec_settings(facts),
                        trace.view,
                    )
                    &&& fresh.analysis == trace.analysis
                },
        }
    }

    pub fn restore(&self, facts: &RestoredTrace, x_view: XViewConfig) -> (trace: TraceState)
        ensures
            self.is_restored(trace, *facts, x_view),
            trace.analysis.wf(),
    {
        let settings = self.settings(facts);
        let display = settings.display;
        let mut trace = TraceState::new(self.id, settings, facts.view);
        let ghost fresh = trace;
        trace.view.x_min = x_view.min;
        trace.view.x_max = x_view.max;
        trace.view.y_scale = self.scale(facts);
        if let Some(view) = self.y_view {
            trace.view.y_divisions = clamp_divisions(view.divisions);
            if view.valid_on(facts.floor, &facts.y) {
                trace.view.y_min = view.min;
                trace.view.y_max = view.max;
                trace.view_locked = view.locked;
                trace.needs_fit = !view.locked;
            } else {
                trace.view.y_min = facts.fallback.0;
                trace.view.y_max = facts.fallback.1;
            }
        }
        match &self.analysis {
            Some(analysis) => {
                trace.analysis.restore_config(analysis);
                trace.analysis.set_column(display.fixed_column());
                trace.analysis.set_smith(display.is_smith());
                proof {
                    let markers = analysis_tools::normalized_markers(
                        analysis_tools::restored_markers(
                            analysis.markers@,
                            analysis.markers@.len() as int,
                        ),
                    );
                    analysis_tools::lemma_smith_markers_settle(markers, display.smith());
                }
            },
            None => {
                let ghost renewed = TraceState { view: trace.view, ..fresh };
                assert(renewed.is_new(self.id, settings, trace.view));
                assert(renewed.analysis == trace.analysis);
            },
        }
        trace
    }
}

/// What is known of a workspace that is stored.
#[derive(Debug)]
pub struct StoreFacts {
    /// The visible frequencies.
    pub x: SpanFacts,
    /// The frequencies that the workspace covers.
    pub range: RangeFacts,
    /// One entry for each trace.
    pub traces: Vec<StoredTrace>,
}

/// What is known of a workspace that is restored.
#[derive(Debug)]
pub struct RestoreFacts {
    /// The stored visible frequencies.
    pub x: SpanFacts,
    /// The frequencies that the workspace covers.
    pub range: RangeFacts,
    /// A view from zero to one whose frequencies are still to be set.
    pub plain_view: PlotView,
    /// One entry for each stored definition.
    pub traces: Vec<RestoredTrace>,
}

/// Definitions of the workspace. Measurements are never stored.
#[derive(Debug, PartialEq, Eq)]
pub struct WorkspaceConfig {
    pub start_hz: Real,
    pub stop_hz: Real,
    pub points: u32,
    /// How early files chose the list.
    pub list_mode: bool,
    pub sweep_mode: Option<SweepMode>,
    pub segments: Vec<SegmentDefinition>,
    pub frequencies_hz: Vec<u64>,
    pub run: RunSettings,
    pub log_x: bool,
    pub selected: Option<TraceId>,
    pub next_id: u64,
    pub traces: Vec<TraceConfig>,
    pub x_view: Option<XViewConfig>,
    pub smith_view: Option<SmithViewConfig>,
}

/// Whether a stored number can name a trace: neither end of the range can.
pub open spec fn usable_id(id: TraceId) -> bool {
    id.0 != 0 && id.0 != u64::MAX
}

/// Whether one of these definitions has this number.
pub open spec fn defines(traces: Seq<TraceConfig>, places: Seq<int>, id: TraceId) -> bool {
    exists|k: int| 0 <= k < places.len() && traces[#[trigger] places[k]].id == id
}

/// Places of the definitions among the first `count` that are restored: the
/// first ones with a number of their own, up to the limit.
pub open spec fn kept_places(traces: Seq<TraceConfig>, count: int) -> Seq<int>
    decreases count,
{
    if count <= 0 {
        seq![]
    } else {
        let before = kept_places(traces, count - 1);
        let id = traces[count - 1].id;
        if before.len() < MAX_TRACES && usable_id(id) && !defines(traces, before, id) {
            before.push(count - 1)
        } else {
            before
        }
    }
}

/// The smallest number that none of these definitions uses or exceeds.
pub open spec fn next_after(traces: Seq<TraceConfig>, places: Seq<int>, low: u64) -> u64
    decreases places.len(),
{
    if places.len() == 0 {
        low
    } else {
        let rest = next_after(traces, places.drop_last(), low);
        let own = (traces[places.last()].id.0 + 1) as u64;
        if own > rest {
            own
        } else {
            rest
        }
    }
}

proof fn lemma_kept_places(traces: Seq<TraceConfig>, count: int)
    requires
        0 <= count <= traces.len(),
    ensures
        ({
            let places = kept_places(traces, count);
            &&& places.len() <= MAX_TRACES
            &&& forall|k: int| 0 <= k < places.len() ==> 0 <= (#[trigger] places[k]) < count
            &&& forall|k: int|
                0 <= k < places.len() ==> usable_id(traces[#[trigger] places[k]].id)
            &&& forall|j: int, k: int|
                0 <= j < k < places.len() ==> traces[#[trigger] places[j]].id
                    != traces[#[trigger] places[k]].id
        }),
    decreases count,
{
    if count > 0 {
        lemma_kept_places(traces, count - 1);
        let before = kept_places(traces, count - 1);
        let after = kept_places(traces, count);
        assert forall|j: int, k: int| 0 <= j < k < after.len() implies traces[#[trigger] after[j]].id
            != traces[#[trigger] after[k]].id by {
            assert(after[j] == before[j]);
            if k < before.len() {
                assert(after[k] == before[k]);
            }
        }
    }
}

proof fn lemma_next_after(traces: Seq<TraceConfig>, places: Seq<int>, low: u64)
    requires
        forall|k: int| 0 <= k < places.len() ==> usable_id(traces[#[trigger] places[k]].id),
    ensures
        next_after(traces, places, low) >= low,
        forall|k: int|
            0 <= k < places.len() ==> traces[#[trigger] places[k]].id.0 < next_after(
                traces,
                places,
                low,
            ),
    decreases places.len(),
{
    if places.len() > 0 {
        let rest = places.drop_last();
        assert forall|k: int| 0 <= k < rest.len() implies usable_id(
            traces[#[trigger] rest[k]].id,
        ) by {
            assert(rest[k] == places[k]);
        }
        lemma_next_after(traces, rest, low);
        assert forall|k: int| 0 <= k < places.len() implies traces[#[trigger] places[k]].id.0
            < next_after(traces, places, low) by {
            if k < rest.len() {
                assert(rest[k] == places[k]);
            }
        }
    }
}

impl WorkspaceConfig {
    /// The visible frequencies that are stored.
    pub open spec fn stored_x(workspace: Workspace, facts: StoreFacts) -> XViewConfig {
        let view = XViewConfig { min: workspace.x_view.x_min, max: workspace.x_view.x_max };
        if view.usable(workspace.log_x, facts.x) {
            view
        } else {
            XViewConfig::whole_workspace(workspace.log_x, facts.range)
        }
    }

    /// Whether this is a workspace as it is stored.
    pub open spec fn is_stored(self, workspace: Workspace, facts: StoreFacts) -> bool {
        let smith = SmithViewConfig {
            zoom: workspace.smith.zoom,
            dx: workspace.smith.dx,
            dy: workspace.smith.dy,
        }.restored();
        &&& self.start_hz == workspace.range.start_hz
        &&& self.stop_hz == workspace.range.stop_hz
        &&& self.points == workspace.range.points
        &&& !self.list_mode
        &&& self.sweep_mode == Some(workspace.sweep_mode)
        &&& self.segments@ == workspace.segments@
        &&& self.frequencies_hz@ == workspace.frequencies_hz@
        &&& self.run == workspace.run
        &&& self.log_x == workspace.log_x
        &&& self.selected == workspace.selected
        &&& self.next_id == workspace.next_id
        &&& self.x_view == Some(WorkspaceConfig::stored_x(workspace, facts))
        &&& self.smith_view == Some(
            SmithViewConfig { zoom: smith.zoom, dx: smith.dx, dy: smith.dy },
        )
        &&& self.traces@.len() == workspace.traces@.len()
        &&& forall|i: int|
            0 <= i < self.traces@.len() ==> (#[trigger] self.traces@[i]).is_stored(
                workspace.traces@[i],
                facts.traces@[i],
            )
    }

    pub fn from_workspace(workspace: &Workspace, facts: &StoreFacts) -> (config: Self)
        requires
            facts.traces@.len() == workspace.traces@.len(),
        ensures
            config.is_stored(*workspace, *facts),
    {
        let shown = XViewConfig { min: workspace.x_view.x_min, max: workspace.x_view.x_max };
        let x_view = if shown.valid(workspace.log_x, &facts.x) {
            shown
        } else {
            XViewConfig::for_workspace(workspace.log_x, &facts.range)
        };
        let smith = SmithViewConfig {
            zoom: workspace.smith.zoom,
            dx: workspace.smith.dx,
            dy: workspace.smith.dy,
        }.restore();
        let mut traces: Vec<TraceConfig> = Vec::new();
        let mut index: usize = 0;
        while index < workspace.traces.len()
            invariant
                index <= workspace.traces@.len() == facts.traces@.len(),
                traces@.len() == index,
                forall|i: int|
                    0 <= i < index ==> (#[trigger] traces@[i]).is_stored(
                        workspace.traces@[i],
                        facts.traces@[i],
                    ),
            decreases workspace.traces@.len() - index,
        {
            traces.push(TraceConfig::from_trace(&workspace.traces[index], &facts.traces[index]));
            index = index + 1;
        }
        WorkspaceConfig {
            start_hz: workspace.range.start_hz,
            stop_hz: workspace.range.stop_hz,
            points: workspace.range.points,
            list_mode: false,
            sweep_mode: Some(workspace.sweep_mode),
            segments: copied(&workspace.segments),
            frequencies_hz: copied(&workspace.frequencies_hz),
            run: workspace.run.clone(),
            log_x: workspace.log_x,
            selected: workspace.selected,
            next_id: workspace.next_id,
            traces,
            x_view: Some(x_view),
            smith_view: Some(
                SmithViewConfig { zoom: smith.zoom, dx: smith.dx, dy: smith.dy },
            ),
        }
    }

    /// The visible frequencies of a restored workspace.
    pub open spec fn restored_x(self, facts: RestoreFacts) -> XViewConfig {
        if self.x_view is Some && self.x_view->0.usable(self.log_x, facts.x) {
            self.x_view->0
        } else {
            XViewConfig::whole_workspace(self.log_x, facts.range)
        }
    }

    /// Whether a workspace sweeps the frequencies that are stored here.
    pub open spec fn is_swept_by(self, workspace: Workspace) -> bool {
        &&& workspace.range == (SweepRange {
            start_hz: self.start_hz,
            stop_hz: self.stop_hz,
            points: self.points,
        })
        &&& workspace.log_x == self.log_x
        &&& workspace.sweep_mode == match self.sweep_mode {
            Some(mode) => mode,
            None => if self.list_mode {
                SweepMode::List
            } else {
                SweepMode::Range
            },
        }
        &&& workspace.segments@ == if self.segments@.len() <= MAX_SEGMENTS {
            self.segments@
        } else {
            seq![]
        }
        &&& workspace.frequencies_hz@ == self.frequencies_hz@
    }

    /// Whether this is the workspace that the definitions stand for.
    pub open spec fn is_restored(self, workspace: Workspace, facts: RestoreFacts) -> bool {
        let x_view = self.restored_x(facts);
        let places = kept_places(self.traces@, self.traces@.len() as int);
        let next = next_after(self.traces@, places, 1);
        &&& self.is_swept_by(workspace)
        &&& workspace.run == self.run
        &&& workspace.x_view == (PlotView {
            x_min: x_view.min,
            x_max: x_view.max,
            ..facts.plain_view
        })
        &&& workspace.smith == match self.smith_view {
            Some(view) => view.restored(),
            None => SmithViewConfig::centred().restored(),
        }
        &&& workspace.editor is None
        &&& workspace.traces@.len() == places.len()
        &&& forall|k: int|
            0 <= k < places.len() ==> self.traces@[places[k]].is_restored(
                #[trigger] workspace.traces@[k],
                facts.traces@[places[k]],
                x_view,
            )
        &&& workspace.next_id == if self.next_id > next {
            self.next_id
        } else {
            next
        }
        &&& workspace.selected == if self.selected is Some && defines(
            self.traces@,
            places,
            self.selected->0,
        ) {
            self.selected
        } else if places.len() > 0 {
            Some(self.traces@[places.last()].id)
        } else {
            None
        }
    }

    /// A workspace without traces that sweeps the stored frequencies.
    pub fn outline(&self, view: PlotView, smith: SmithView) -> (workspace: Workspace)
        ensures
            workspace.wf(),
            self.is_swept_by(workspace),
            workspace.run.is_plain(),
            workspace.selected is None,
            workspace.next_id == 1,
            workspace.traces@.len() == 0,
            workspace.x_view == view,
            workspace.smith == smith,
            workspace.editor is None,
    {
        let range = SweepRange {
            start_hz: self.start_hz,
            stop_hz: self.stop_hz,
            points: self.points,
        };
        let mut workspace = Workspace::empty(range, view, smith);
        workspace.log_x = self.log_x;
        workspace.sweep_mode = match self.sweep_mode {
            Some(mode) => mode,
            None => {
                if self.list_mode {
                    SweepMode::List
                } else {
                    SweepMode::Range
                }
            },
        };
        if self.segments.len() <= MAX_SEGMENTS {
            workspace.segments = copied(&self.segments);
        }
        workspace.frequencies_hz = copied(&self.frequencies_hz);
        assert(workspace.segments@ == if self.segments@.len() <= MAX_SEGMENTS {
            self.segments@
        } else {
            seq![]
        });
        workspace
    }

    pub fn restore(&self, facts: &RestoreFacts) -> (workspace: Workspace)
        requires
            facts.traces@.len() == self.traces@.len(),
        ensures
            self.is_restored(workspace, *facts),
            workspace.wf(),
    {
        let stored: Option<XViewConfig> = match self.x_view {
            Some(view) => {
                if view.valid(self.log_x, &facts.x) {
                    Some(view)
                } else {
                    None
                }
            },
            None => None,
        };
        let x_view: XViewConfig = match stored {
            Some(view) => view,
            None => XViewConfig::for_workspace(self.log_x, &facts.range),
        };
        let mut view: PlotView = facts.plain_view;
        view.x_min = x_view.min;
        view.x_max = x_view.max;
        let smith = match self.smith_view {
            Some(view) => view.restore(),
            None => SmithViewConfig::default().restore(),
        };
        let mut workspace = self.outline(view, smith);
        workspace.run = self.run.clone();
        let mut traces: Vec<TraceState> = Vec::new();
        let mut next: u64 = 1;
        let mut index: usize = 0;
        let ghost configs = self.traces@;
        let ghost mut places = kept_places(configs, 0);
        while index < self.traces.len()
            invariant
                index <= configs.len(),
                configs == self.traces@,
                facts.traces@.len() == configs.len(),
                places == kept_places(configs, index as int),
                traces@.len() == places.len() <= MAX_TRACES,
                next == next_after(configs, places, 1),
                forall|k: int|
                    0 <= k < places.len() ==> configs[places[k]].is_restored(
                        #[trigger] traces@[k],
                        facts.traces@[places[k]],
                        x_view,
                    ),
                forall|k: int| 0 <= k < places.len() ==> 0 <= (#[trigger] places[k]) < index,
                forall|k: int| 0 <= k < traces@.len() ==> (#[trigger] traces@[k]).analysis.wf(),
            decreases configs.len() - index,
        {
            let config = &self.traces[index];
            let id: TraceId = config.id;
            let taken = workspace::trace_index(&traces, id).is_some();
            assert(taken == defines(configs, places, id)) by {
                if taken {
                    let k = choose|k: int|
                        0 <= k < traces@.len() && (#[trigger] traces@[k]).id == id;
                    assert(configs[places[k]].is_restored(
                        traces@[k],
                        facts.traces@[places[k]],
                        x_view,
                    ));
                } else if defines(configs, places, id) {
                    let k = choose|k: int|
                        0 <= k < places.len() && configs[#[trigger] places[k]].id == id;
                    assert(configs[places[k]].is_restored(
                        traces@[k],
                        facts.traces@[places[k]],
                        x_view,
                    ));
                    assert(traces@[k].id == id);
                }
            }
            let ghost before = places;
            proof {
                places = kept_places(configs, index + 1);
            }
            if traces.len() < MAX_TRACES && id.0 != 0 && id.0 != u64::MAX && !taken {
                assert(places == before.push(index as int));
                assert(places.drop_last() =~= before);
                if id.0 + 1 > next {
                    next = id.0 + 1;
                }
                let ghost old_traces = traces@;
                traces.push(config.restore(&facts.traces[index], x_view));
                assert forall|k: int| 0 <= k < places.len() implies configs[places[k]].is_restored(
                    #[trigger] traces@[k],
                    facts.traces@[places[k]],
                    x_view,
                ) by {
                    if k < before.len() {
                        assert(traces@[k] == old_traces[k]);
                        assert(places[k] == before[k]);
                    }
                }
            }
            index = index + 1;
        }
        proof {
            lemma_kept_places(configs, configs.len() as int);
            lemma_next_after(configs, places, 1);
        }
        workspace.next_id = if self.next_id > next {
            self.next_id
        } else {
            next
        };
        let kept: Option<TraceId> = match self.selected {
            Some(id) => {
                let known = workspace::trace_index(&traces, id).is_some();
                assert(known == defines(configs, places, id)) by {
                    if known {
                        let k = choose|k: int|
                            0 <= k < traces@.len() && (#[trigger] traces@[k]).id == id;
                        assert(configs[places[k]].is_restored(
                            traces@[k],
                            facts.traces@[places[k]],
                            x_view,
                        ));
                    } else if defines(configs, places, id) {
                        let k = choose|k: int|
                            0 <= k < places.len() && configs[#[trigger] places[k]].id == id;
                        assert(configs[places[k]].is_restored(
                            traces@[k],
                            facts.traces@[places[k]],
                            x_view,
                        ));
                        assert(traces@[k].id == id);
                    }
                }
                if known {
                    Some(id)
                } else {
                    None
                }
            },
            None => None,
        };
        workspace.selected = match kept {
            Some(id) => Some(id),
            None => {
                if traces.len() > 0 {
                    Some(traces[traces.len() - 1].id)
                } else {
                    None
                }
            },
        };
        assert forall|k: int| 0 <= k < traces@.len() implies (#[trigger] traces@[k]).id
            == configs[places[k]].id by {
            assert(configs[places[k]].is_restored(traces@[k], facts.traces@[places[k]], x_view));
        }
        assert forall|i: int, j: int| 0 <= i < j < traces@.len() implies (#[trigger] traces@[i]).id
            != (#[trigger] traces@[j]).id by {
            assert(configs[places[i]].id != configs[places[j]].id);
        }
        assert forall|i: int| 0 <= i < traces@.len() implies 0 < (#[trigger] traces@[i]).id.0
            < workspace.next_id by {
            assert(usable_id(configs[places[i]].id));
        }
        assert(places.len() > 0 ==> traces@[traces@.len() - 1].id == configs[places.last()].id);
        workspace.traces = traces;
        assert(self.segments@.len() > MAX_SEGMENTS ==> workspace.segments@ =~= seq![]);
        workspace
    }
}

/// Spectrum settings of early files.
#[derive(Debug, PartialEq, Eq)]
pub struct Spec {
    pub start_hz: Real,
    pub stop_hz: Real,
    pub points: u32,
    pub rbw: String,
    pub ref_level_dbm: i32,
    pub log_x: bool,
}

impl Spec {
    /// A sweep from 100 MHz to 500 MHz.
    pub open spec fn is_standard(self) -> bool {
        &&& self.start_hz.bits == 0x4197_d784_0000_0000
        &&& self.stop_hz.bits == 0x41bd_cd65_0000_0000
        &&& self.points == 201
        &&& self.rbw@ == "10k"@
        &&& self.ref_level_dbm == -10
        &&& !self.log_x
    }
}

impl Default for Spec {
    fn default() -> (spec: Self)
        ensures
            spec.is_standard(),
    {
        Spec {
            start_hz: Real { bits: 0x4197_d784_0000_0000 },
            stop_hz: Real { bits: 0x41bd_cd65_0000_0000 },
            points: 201,
            rbw: "10k".to_owned(),
            ref_level_dbm: -10,
            log_x: false,
        }
    }
}

impl Clone for Spec {
    fn clone(&self) -> (copy: Self)
        ensures
            copy == *self,
    {
        Spec {
            start_hz: self.start_hz,
            stop_hz: self.stop_hz,
            points: self.points,
            rbw: self.rbw.clone(),
            ref_level_dbm: self.ref_level_dbm,
            log_x: self.log_x,
        }
    }
}

/// Reflection settings of early files.
#[derive(Debug, PartialEq, Eq)]
pub struct S11 {
    pub start_hz: Real,
    pub stop_hz: Real,
    pub points: u32,
    pub cal: String,
    pub display: String,
    pub log_x: bool,
    pub rbw: Option<String>,
}

impl S11 {
    /// A sweep from 1 MHz to 1 GHz without correction.
    pub open spec fn is_standard(self) -> bool {
        &&& self.start_hz.bits == 0x412e_8480_0000_0000
        &&& self.stop_hz.bits == 0x41cd_cd65_0000_0000
        &&& self.points == 201
        &&& self.cal@ == "caloff"@
        &&& self.display@ == display_name(S11Display::ReturnLoss)
        &&& !self.log_x
        &&& self.rbw is None
    }
}

impl Default for S11 {
    fn default() -> (s11: Self)
        ensures
            s11.is_standard(),
    {
        S11 {
            start_hz: Real { bits: 0x412e_8480_0000_0000 },
            stop_hz: Real { bits: 0x41cd_cd65_0000_0000 },
            points: 201,
            cal: "caloff".to_owned(),
            display: display_as_str(S11Display::ReturnLoss).to_owned(),
            log_x: false,
            rbw: None,
        }
    }
}

impl Clone for S11 {
    fn clone(&self) -> (copy: Self)
        ensures
            copy == *self,
    {
        S11 {
            start_hz: self.start_hz,
            stop_hz: self.stop_hz,
            points: self.points,
            cal: self.cal.clone(),
            display: self.display.clone(),
            log_x: self.log_x,
            rbw: match &self.rbw {
                Some(rbw) => Some(rbw.clone()),
                None => None,
            },
        }
    }
}

/// Settings of an early file, kept for recovery and never used to measure.
#[derive(Debug, PartialEq, Eq)]
pub struct LegacySweeps {
    pub mode: String,
    pub spec: Spec,
    pub s11: S11,
}

impl Clone for LegacySweeps {
    fn clone(&self) -> (copy: Self)
        ensures
            copy == *self,
    {
        LegacySweeps {
            mode: self.mode.clone(),
            spec: self.spec.clone(),
            s11: self.s11.clone(),
        }
    }
}

/// All stored settings.
#[derive(Debug, PartialEq, Eq)]
pub struct AppConfig {
    pub version: u32,
    pub language: LanguagePreference,
    /// Mode of an early file.
    pub mode: String,
    pub connection: ConnectionTarget,
    pub spec: Spec,
    pub s11: S11,
    pub legacy_sweeps: Option<LegacySweeps>,
    pub workspace: WorkspaceConfig,
    pub desktop: DesktopConfig,
    pub function: InstrumentFunction,
    pub sources: SourceConfig,
}

/// What is known of the settings of an early file.
#[derive(Debug)]
pub struct LegacyFacts {
    /// What the driver makes of the stored names.
    pub spec_rbw: Option<Rbw>,
    pub s11_cal: Option<Cal>,
    pub s11_rbw: Option<Rbw>,
    /// Settings of a new trace.
    pub defaults: TraceSettings,
    /// Colour of a second trace.
    pub second_color: Color,
    /// Views of new traces with the two projections.
    pub spec_view: PlotView,
    pub s11_view: PlotView,
    /// Views of a new workspace.
    pub x_view: PlotView,
    pub smith: SmithView,
    pub store: StoreFacts,
    pub restore: RestoreFacts,
}

impl AppConfig {
    /// The grid and the axis that an early file selects.
    pub open spec fn legacy_grid(self) -> (SweepRange, bool) {
        if mode_of(self.mode@) is S11 {
            (
                SweepRange {
                    start_hz: self.s11.start_hz,
                    stop_hz: self.s11.stop_hz,
                    points: self.s11.points,
                },
                self.s11.log_x,
            )
        } else {
            (
                SweepRange {
                    start_hz: self.spec.start_hz,
                    stop_hz: self.spec.stop_hz,
                    points: self.spec.points,
                },
                self.spec.log_x,
            )
        }
    }

    /// The grid and the axis that an early file selects.
    pub fn early_grid(&self) -> (grid: (SweepRange, bool))
        ensures
            grid == self.legacy_grid(),
    {
        if matches!(parse_mode(self.mode.as_str()), AppMode::S11) {
            (
                SweepRange {
                    start_hz: self.s11.start_hz,
                    stop_hz: self.s11.stop_hz,
                    points: self.s11.points,
                },
                self.s11.log_x,
            )
        } else {
            (
                SweepRange {
                    start_hz: self.spec.start_hz,
                    stop_hz: self.spec.stop_hz,
                    points: self.spec.points,
                },
                self.spec.log_x,
            )
        }
    }

    /// Settings of the spectrum trace of an early file, with the bandwidth that
    /// the driver knows by its name.
    pub open spec fn legacy_spec(self, defaults: TraceSettings, rbw: Option<Rbw>) -> TraceSettings {
        TraceSettings {
            rbw: match rbw {
                Some(rbw) => rbw,
                None => Rbw { hz: 10_000 },
            },
            ref_level_dbm: self.spec.ref_level_dbm,
            visible: mode_of(self.mode@) is Spec,
            ..defaults
        }
    }

    pub fn early_spec(&self, defaults: TraceSettings, rbw: Option<Rbw>) -> (settings: TraceSettings)
        ensures
            settings == self.legacy_spec(defaults, rbw),
    {
        let mut settings: TraceSettings = defaults;
        settings.rbw = match rbw {
            Some(rbw) => rbw,
            None => Rbw { hz: 10_000 },
        };
        settings.ref_level_dbm = self.spec.ref_level_dbm;
        settings.visible = matches!(parse_mode(self.mode.as_str()), AppMode::Spec);
        settings
    }

    /// Settings of the reflection trace of an early file, with the calibration
    /// and the bandwidth that the driver knows by their names.
    pub open spec fn legacy_s11(
        self,
        defaults: TraceSettings,
        cal: Option<Cal>,
        rbw: Option<Rbw>,
        color: Color,
    ) -> TraceSettings {
        TraceSettings {
            display: TraceDisplay::S11(display_of(self.s11.display@)),
            cal: match cal {
                Some(cal) => cal,
                None => Cal::CalOff,
            },
            rbw: match rbw {
                Some(rbw) => rbw,
                None => Rbw { hz: 10_000 },
            },
            visible: mode_of(self.mode@) is S11,
            color,
            ..defaults
        }
    }

    pub fn early_s11(
        &self,
        defaults: TraceSettings,
        cal: Option<Cal>,
        rbw: Option<Rbw>,
        color: Color,
    ) -> (settings: TraceSettings)
        ensures
            settings == self.legacy_s11(defaults, cal, rbw, color),
    {
        let mut settings: TraceSettings = defaults;
        settings.display = TraceDisplay::S11(parse_display(self.s11.display.as_str()));
        settings.cal = match cal {
            Some(cal) => cal,
            None => Cal::CalOff,
        };
        settings.rbw = match rbw {
            Some(rbw) => rbw,
            None => Rbw { hz: 10_000 },
        };
        settings.visible = matches!(parse_mode(self.mode.as_str()), AppMode::S11);
        settings.color = color;
        settings
    }

    /// Whether this is the workspace of an early file before its views are
    /// checked: one trace of each mode, the one that was in use shown and
    /// selected.
    pub open spec fn is_legacy(self, workspace: Workspace, facts: LegacyFacts) -> bool {
        &&& workspace.range == self.legacy_grid().0
        &&& workspace.log_x == self.legacy_grid().1
        &&& workspace.sweep_mode is Range
        &&& workspace.segments@.len() == 0
        &&& workspace.frequencies_hz@.len() == 0
        &&& workspace.run.is_plain()
        &&& workspace.next_id == 3
        &&& workspace.x_view == facts.x_view
        &&& workspace.smith == facts.smith
        &&& workspace.editor is None
        &&& workspace.traces@.len() == 2
        &&& workspace.traces@[0].is_new(
            TraceId(1),
            self.legacy_spec(facts.defaults, facts.spec_rbw),
            facts.spec_view,
        )
        &&& workspace.traces@[1].is_new(
            TraceId(2),
            self.legacy_s11(facts.defaults, facts.s11_cal, facts.s11_rbw, facts.second_color),
            facts.s11_view,
        )
        &&& workspace.selected == Some(
            if mode_of(self.mode@) is S11 {
                TraceId(2)
            } else {
                TraceId(1)
            },
        )
    }

    pub fn legacy_workspace(&self, facts: &LegacyFacts) -> (workspace: Workspace)
        requires
            facts.store.traces@.len() == 2,
            facts.restore.traces@.len() == 2,
        ensures
            workspace.wf(),
            exists|before: Workspace, stored: WorkspaceConfig|
                {
                    &&& self.is_legacy(before, *facts)
                    &&& #[trigger] stored.is_stored(before, facts.store)
                    &&& stored.is_restored(workspace, facts.restore)
                },
    {
        let reflection = matches!(parse_mode(self.mode.as_str()), AppMode::S11);
        let (range, log_x) = self.early_grid();
        let mut workspace = Workspace::empty(range, facts.x_view, facts.smith);
        workspace.log_x = log_x;
        let spec = self.early_spec(facts.defaults, facts.spec_rbw);
        let spec_id = workspace.add_trace(spec, facts.spec_view);
        let ghost first = workspace.traces@;
        let s11 = self.early_s11(
            facts.defaults,
            facts.s11_cal,
            facts.s11_rbw,
            facts.second_color,
        );
        let s11_id = workspace.add_trace(s11, facts.s11_view);
        assert(workspace.traces@.drop_last()[0] == workspace.traces@[0]);
        assert(workspace.traces@[0] == first[0]);
        assert(first.last() == first[0]);
        workspace.selected = if reflection {
            s11_id
        } else {
            spec_id
        };
        assert(self.is_legacy(workspace, *facts));
        let stored = WorkspaceConfig::from_workspace(&workspace, &facts.store);
        stored.restore(&facts.restore)
    }

    /// Whether these are a state's settings as they are stored.
    pub open spec fn is_snapshot(self, state: AppState, facts: StoreFacts) -> bool {
        &&& self.version == CONFIG_VERSION
        &&& self.language == state.language_preference
        &&& self.mode@ == mode_name(AppMode::Spec)
        &&& self.spec.is_standard()
        &&& self.s11.is_standard()
        &&& self.connection == state.target
        &&& self.legacy_sweeps == state.legacy_sweeps
        &&& self.workspace.is_stored(state.workspace, facts)
        &&& self.desktop.profiles@ == state.desktop.settings.profiles@
        &&& self.desktop.theme == state.desktop.settings.theme
        &&& self.function == state.function
        &&& self.sources == state.source.config
    }

    /// Whether these are the settings of a program that was never used, around a
    /// new workspace and the settings of new sources.
    pub open spec fn is_standard(
        self,
        workspace: Workspace,
        facts: StoreFacts,
        sources: SourceConfig,
    ) -> bool {
        &&& self.version == CONFIG_VERSION
        &&& self.language is System
        &&& self.mode@ == mode_name(AppMode::Spec)
        &&& self.spec.is_standard()
        &&& self.s11.is_standard()
        &&& self.connection matches ConnectionTarget::Tcp { host, port } && host@.len() == 0 && port
            == DEFAULT_PORT
        &&& self.legacy_sweeps is None
        &&& self.workspace.is_stored(workspace, facts)
        &&& self.desktop.profiles@.len() == 0
        &&& self.desktop.theme is System
        &&& self.function is Measurements
        &&& self.sources == sources
    }

    /// The settings that are used where none are stored.
    pub fn standard(workspace: &Workspace, facts: &StoreFacts, sources: SourceConfig) -> (config:
        Self)
        requires
            facts.traces@.len() == workspace.traces@.len(),
        ensures
            config.is_standard(*workspace, *facts, sources),
    {
        AppConfig {
            version: CONFIG_VERSION,
            language: LanguagePreference::System,
            mode: mode_as_str(AppMode::Spec).to_owned(),
            connection: ConnectionTarget::default(),
            spec: Spec::default(),
            s11: S11::default(),
            legacy_sweeps: None,
            workspace: WorkspaceConfig::from_workspace(workspace, facts),
            desktop: DesktopConfig::default(),
            function: InstrumentFunction::Measurements,
            sources,
        }
    }

    /// Snapshot the persisted fields of the current state.
    pub fn from_state(state: &AppState, facts: &StoreFacts) -> (config: Self)
        requires
            facts.traces@.len() == state.workspace.traces@.len(),
        ensures
            config.is_snapshot(*state, *facts),
    {
        AppConfig {
            version: CONFIG_VERSION,
            language: state.language_preference,
            mode: mode_as_str(AppMode::Spec).to_owned(),
            connection: state.target.clone(),
            spec: Spec::default(),
            s11: S11::default(),
            legacy_sweeps: match &state.legacy_sweeps {
                Some(sweeps) => Some(sweeps.clone()),
                None => None,
            },
            workspace: WorkspaceConfig::from_workspace(&state.workspace, facts),
            desktop: state.desktop.settings.clone(),
            function: state.function,
            sources: state.source.config.clone(),
        }
    }

    /// Whether the connection of an early file becomes a profile.
    pub open spec fn imports_connection(self) -> bool {
        &&& self.version < 2
        &&& self.desktop.profiles@.len() == 0
        &&& self.connection matches ConnectionTarget::Tcp { host, .. } && text::trimmed(
            host@,
        ).len() > 0
    }

    /// The profiles after settings were applied.
    pub open spec fn is_profiles(self, profiles: Seq<DeviceProfile>) -> bool {
        if self.imports_connection() {
            &&& profiles.len() == 1
            &&& profiles[0].name@ == text::trimmed(self.connection->host@)
            &&& profiles[0].target matches ConnectionTarget::Tcp { host, port } && host@
                == text::trimmed(self.connection->host@) && port == self.connection->port
        } else {
            profiles == self.desktop.profiles@
        }
    }

    /// Whether this is a state after settings were applied. Nothing that ran
    /// before is taken up again.
    pub open spec fn is_applied(
        self,
        after: AppState,
        before: AppState,
        system: Language,
        facts: RestoreFacts,
        legacy: LegacyFacts,
    ) -> bool {
        &&& after == (AppState {
            language: self.language.resolved(system),
            language_preference: self.language,
            target: self.connection,
            sweep: SweepState::Idle,
            active_plan: None,
            run_progress: None,
            last_recording: None,
            function: self.function,
            source: SourceUi::idle(self.sources),
            calibration: CalibrationUi::fresh(),
            workspace: after.workspace,
            desktop: DesktopState { settings: after.desktop.settings, ..before.desktop },
            legacy_sweeps: if self.version < 3 {
                Some(LegacySweeps { mode: self.mode, spec: self.spec, s11: self.s11 })
            } else {
                self.legacy_sweeps
            },
            ..before
        })
        &&& self.is_profiles(after.desktop.settings.profiles@)
        &&& after.desktop.settings.theme == self.desktop.theme
        &&& if self.version < 3 {
            exists|definitions: Workspace, stored: WorkspaceConfig|
                {
                    &&& self.is_legacy(definitions, legacy)
                    &&& #[trigger] stored.is_stored(definitions, legacy.store)
                    &&& stored.is_restored(after.workspace, legacy.restore)
                }
        } else {
            self.workspace.is_restored(after.workspace, facts)
        }
    }

    /// Apply loaded settings.
    pub fn apply_to(
        &self,
        state: &mut AppState,
        system: Language,
        facts: &RestoreFacts,
        legacy: &LegacyFacts,
    )
        requires
            facts.traces@.len() == self.workspace.traces@.len(),
            legacy.store.traces@.len() == 2,
            legacy.restore.traces@.len() == 2,
        ensures
            self.is_applied(*final(state), *old(state), system, *facts, *legacy),
            final(state).workspace.wf(),
    {
        let mut settings = self.desktop.clone();
        // An early file's connection is imported once. Later, an empty list is
        // the user's choice and stays empty.
        if self.version < 2 && settings.profiles.len() == 0 {
            if let ConnectionTarget::Tcp { host, port } = &self.connection {
                let host = trim(host.as_str());
                if !host.as_str().is_empty() {
                    settings.profiles.push(
                        DeviceProfile {
                            name: host.clone(),
                            target: ConnectionTarget::Tcp { host, port: *port },
                        },
                    );
                }
            }
        }
        state.desktop.settings = settings;
        state.language_preference = self.language;
        state.language = self.language.resolve(system);
        state.target = self.connection.clone();
        state.legacy_sweeps = if self.version < 3 {
            Some(
                LegacySweeps {
                    mode: self.mode.clone(),
                    spec: self.spec.clone(),
                    s11: self.s11.clone(),
                },
            )
        } else {
            match &self.legacy_sweeps {
                Some(sweeps) => Some(sweeps.clone()),
                None => None,
            }
        };
        state.workspace = if self.version < 3 {
            self.legacy_workspace(legacy)
        } else {
            self.workspace.restore(facts)
        };
        state.sweep = SweepState::Idle;
        state.active_plan = None;
        state.run_progress = None;
        state.last_recording = None;
        state.calibration = CalibrationUi::default();
        state.function = self.function;
        state.source = SourceUi::with_config(self.sources.clone());
    }
}

/// A path of the operating system.
#[verifier::external_type_specification]
#[verifier::external_body]
pub struct ExPathBuf(PathBuf);

/// Where the settings are stored.
#[derive(Debug, PartialEq, Eq)]
pub enum ConfigFile {
    /// The file that the environment names.
    Named(String),
    /// The settings file in the user's directory for this application.
    InDirectory(PathBuf),
}

/// Name of the settings file.
pub const CONFIG_FILE_NAME: &'static str = "config.toml";

/// Whether these are the qualifier, the organization and the application by
/// which the platform knows this program.
pub open spec fn names_project(qualifier: Seq<char>, organization: Seq<char>, application: Seq<char>) -> bool {
    qualifier == "io.github"@ && organization == "vowstar"@ && application == "kcsdi"@
}

/// The qualifier, the organization and the application by which the platform
/// knows this program.
pub fn project_name() -> (name: (&'static str, &'static str, &'static str))
    ensures
        name.0@ == "io.github"@,
        name.1@ == "vowstar"@,
        name.2@ == "kcsdi"@,
{
    ("io.github", "vowstar", "kcsdi")
}

/// Wraps `ProjectDirs::from` and `ProjectDirs::config_dir` of the `directories`
/// crate: the directory in which the platform keeps an application's settings,
/// or nothing where the user has no home. It is asked for this program alone.
/// The answer depends on the environment, so nothing is stated of it.
#[verifier::external_body]
fn project_config_dir(qualifier: &str, organization: &str, application: &str) -> (directory: Option<
    PathBuf,
>)
    requires
        names_project(qualifier@, organization@, application@),
{
    directories::ProjectDirs::from(qualifier, organization, application).map(
        |dirs| dirs.config_dir().to_path_buf(),
    )
}

/// The file that is used: the named one, unless its name is empty, then the
/// one in the platform's directory.
pub open spec fn chosen_file(path: Option<&str>, directory: Option<PathBuf>, file: Option<ConfigFile>) -> bool {
    match path {
        Some(name) if name@.len() > 0 => file matches Some(ConfigFile::Named(chosen)) && chosen@
            == name@,
        _ => file == match directory {
            Some(directory) => Some(ConfigFile::InDirectory(directory)),
            None => None,
        },
    }
}

/// Choose between a named file and the platform's directory.
pub fn choose_file(path: Option<&str>, directory: Option<PathBuf>) -> (file: Option<ConfigFile>)
    ensures
        chosen_file(path, directory, file),
{
    if let Some(name) = path {
        if !name.is_empty() {
            return Some(ConfigFile::Named(name.to_owned()));
        }
    }
    match directory {
        Some(directory) => Some(ConfigFile::InDirectory(directory)),
        None => None,
    }
}

/// Where the settings are stored. `path` is what the environment says. Which
/// directory the platform names for `project_name` is not stated.
pub fn config_path_with_override(path: Option<&str>) -> (file: Option<ConfigFile>)
    ensures
        exists|directory: Option<PathBuf>| #[trigger] chosen_file(path, directory, file),
{
    let name = project_name();
    choose_file(path, project_config_dir(name.0, name.1, name.2))
}

proof fn lemma_all_kept(traces: Seq<TraceConfig>, count: int)
    requires
        0 <= count <= traces.len() <= MAX_TRACES,
        forall|i: int| 0 <= i < traces.len() ==> usable_id((#[trigger] traces[i]).id),
        forall|i: int, j: int|
            0 <= i < j < traces.len() ==> (#[trigger] traces[i]).id != (#[trigger] traces[j]).id,
    ensures
        kept_places(traces, count) == Seq::new(count as nat, |i: int| i),
    decreases count,
{
    if count > 0 {
        lemma_all_kept(traces, count - 1);
        let before = kept_places(traces, count - 1);
        assert(usable_id(traces[count - 1].id));
        assert(!defines(traces, before, traces[count - 1].id)) by {
            if defines(traces, before, traces[count - 1].id) {
                let k = choose|k: int|
                    0 <= k < before.len() && traces[#[trigger] before[k]].id == traces[count
                        - 1].id;
                assert(before[k] == k);
                assert(traces[k].id != traces[count - 1].id);
            }
        }
        assert(before.push(count - 1) =~= Seq::new(count as nat, |i: int| i));
    } else {
        assert(kept_places(traces, count) =~= Seq::new(0nat, |i: int| i));
    }
}

proof fn lemma_next_bounded(traces: Seq<TraceConfig>, places: Seq<int>, low: u64, bound: u64)
    requires
        low <= bound,
        forall|k: int| 0 <= k < places.len() ==> traces[#[trigger] places[k]].id.0 < bound,
    ensures
        next_after(traces, places, low) <= bound,
    decreases places.len(),
{
    if places.len() > 0 {
        let rest = places.drop_last();
        assert forall|k: int| 0 <= k < rest.len() implies traces[#[trigger] rest[k]].id.0 < bound by {
            assert(rest[k] == places[k]);
        }
        lemma_next_bounded(traces, rest, low, bound);
        assert(traces[places[places.len() - 1]].id.0 < bound);
    }
}

/// Whether the driver knows its own names again, and the width is one that is
/// drawn.
pub open spec fn settings_survive(settings: TraceSettings, facts: RestoredTrace) -> bool {
    &&& facts.cal == Some(settings.cal)
    &&& facts.rbw == Some(settings.rbw)
    &&& facts.lo == Some(settings.lo)
    &&& settings.line_width.drawn() == settings.line_width
}

/// Whether a trace is another one without its measurements: with the same
/// number, the same settings and the same analysis. Markers, columns and
/// overlays come back that the rules of storing them know, and a Smith chart
/// has no use for some of what its trace was set to.
pub open spec fn comes_back(after: TraceState, before: TraceState) -> bool {
    let smith = before.settings.display.smith();
    let normal = analysis_tools::normal_markers(before.analysis.markers@);
    &&& after.id == before.id
    &&& after.settings == before.settings
    &&& after.completed is None && after.preview is None && after.analysis.latest is None
    &&& after.analysis.hold == before.analysis.hold
    &&& after.analysis.max_hold == before.analysis.max_hold
    &&& after.analysis.min_hold == before.analysis.min_hold
    &&& after.analysis.target == analysis_tools::smith_target(before.analysis.target, smith)
    &&& normal ==> after.analysis.markers@ == analysis_tools::smith_markers(
        before.analysis.markers@,
        smith,
    )
    &&& normal && analysis_tools::numbered_below(before.analysis.markers@, before.analysis.next_id)
        ==> after.analysis.next_id == before.analysis.next_id
    &&& before.analysis.column <= 2 && before.settings.display.spec_fixed_column() is None
        ==> after.analysis.column == before.analysis.column
    &&& overlays_known(before.analysis.overlay_visibility@) ==> analysis_tools::entry_models(
        after.analysis.overlay_visibility@,
    ) == analysis_tools::entry_models(before.analysis.overlay_visibility@)
}

/// Whether all overlay settings can be restored.
pub open spec fn overlays_known(entries: Seq<OverlayVisibilityConfig>) -> bool {
    forall|i: int| 0 <= i < entries.len() ==> analysis_tools::known_overlay(#[trigger] entries[i])
}

/// What is stored of a trace comes back. Measurements do not. Its vertical
/// axis comes back if it can be drawn on the scale that the trace gets, and the
/// scale if the projection still has it.
pub proof fn law_stored_traces_come_back(
    before: TraceState,
    store: StoredTrace,
    config: TraceConfig,
    restore: RestoredTrace,
    x_view: XViewConfig,
    after: TraceState,
)
    requires
        before.analysis.wf(),
        config.is_stored(before, store),
        config.is_restored(after, restore, x_view),
        settings_survive(before.settings, restore),
    ensures
        comes_back(after, before),
        after.view.x_min == x_view.min && after.view.x_max == x_view.max,
        after.view.y_divisions == drawn_divisions(before.view.y_divisions),
        before.view.y_scale is Linear ==> after.view.y_scale == restore.view.y_scale,
        !(before.view.y_scale is Linear) && restore.log_scale == Some(before.view.y_scale)
            ==> after.view.y_scale == before.view.y_scale,
        restore.y == store.y && TraceConfig::current_y(before).fits_scale(restore.floor, store.y)
            ==> after.view.y_min == before.view.y_min && after.view.y_max == before.view.y_max
            && after.view_locked == before.view_locked,
{
    let stored = config.analysis->0;
    let markers = before.analysis.markers@;
    let shown = before.settings.display;
    law_projection_names_come_back(shown);
    assert(config.spec_settings(restore).display == shown);
    assert(TraceConfig::is_analysis(after.analysis, stored, config.id, shown));
    if analysis_tools::normal_markers(markers) {
        analysis_tools::law_stored_markers_come_back(markers);
        analysis_tools::law_stored_markers_are_all_kept(markers);
        if analysis_tools::numbered_below(markers, before.analysis.next_id) {
            analysis_tools::lemma_numbers_settle(markers, before.analysis.next_id);
        }
    }
    let entries = before.analysis.overlay_visibility@;
    if overlays_known(entries) {
        let kept = stored.overlay_visibility@;
        assert forall|i: int| 0 <= i < kept.len() implies analysis_tools::known_overlay(
            #[trigger] kept[i],
        ) by {
            assert(analysis_tools::entry_models(kept).len() == analysis_tools::entry_models(
                entries,
            ).len());
            assert(analysis_tools::entry_models(kept)[i] == analysis_tools::entry_models(
                entries,
            )[i]);
            assert(analysis_tools::known_overlay(entries[i]));
        }
        analysis_tools::law_stored_overlays_come_back(kept);
    }
}

proof fn lemma_places_kept(workspace: Workspace, store: StoreFacts, config: WorkspaceConfig)
    requires
        workspace.wf(),
        config.is_stored(workspace, store),
    ensures
        kept_places(config.traces@, config.traces@.len() as int) == Seq::new(
            config.traces@.len(),
            |i: int| i,
        ),
        forall|i: int|
            0 <= i < config.traces@.len() ==> (#[trigger] config.traces@[i]).id
                == workspace.traces@[i].id,
{
    let configs = config.traces@;
    let count = configs.len() as int;
    assert forall|i: int| 0 <= i < configs.len() implies usable_id((#[trigger] configs[i]).id)
        && configs[i].id == workspace.traces@[i].id by {
        assert(configs[i].is_stored(workspace.traces@[i], store.traces@[i]));
        assert(0 < workspace.traces@[i].id.0 < workspace.next_id);
    }
    assert forall|i: int, j: int| 0 <= i < j < configs.len() implies (#[trigger] configs[i]).id != (
    #[trigger] configs[j]).id by {
        assert(workspace.traces@[i].id != workspace.traces@[j].id);
    }
    lemma_all_kept(configs, count);
}

/// What is stored of a workspace comes back: its grids, its traces with their
/// numbers, settings and markers, the selection, and what the charts show.
/// Measurements do not.
pub proof fn law_stored_workspaces_come_back(
    workspace: Workspace,
    store: StoreFacts,
    config: WorkspaceConfig,
    restore: RestoreFacts,
    restored: Workspace,
)
    requires
        workspace.wf(),
        workspace.segments@.len() <= MAX_SEGMENTS,
        config.is_stored(workspace, store),
        config.is_restored(restored, restore),
        forall|i: int|
            0 <= i < workspace.traces@.len() ==> settings_survive(
                (#[trigger] workspace.traces@[i]).settings,
                restore.traces@[i],
            ),
    ensures
        restored.range == workspace.range,
        restored.sweep_mode == workspace.sweep_mode,
        restored.segments@ == workspace.segments@,
        restored.frequencies_hz@ == workspace.frequencies_hz@,
        restored.run == workspace.run,
        restored.log_x == workspace.log_x,
        restored.next_id == workspace.next_id,
        workspace.selected is Some ==> restored.selected == workspace.selected,
        ({
            let shown = XViewConfig { min: workspace.x_view.x_min, max: workspace.x_view.x_max };
            shown.usable(workspace.log_x, store.x) && restore.x == store.x
                ==> restored.x_view.x_min == shown.min && restored.x_view.x_max == shown.max
        }),
        restored.smith == (SmithViewConfig {
            zoom: workspace.smith.zoom,
            dx: workspace.smith.dx,
            dy: workspace.smith.dy,
        }).restored(),
        restored.traces@.len() == workspace.traces@.len(),
        forall|i: int|
            0 <= i < workspace.traces@.len() ==> comes_back(
                #[trigger] restored.traces@[i],
                workspace.traces@[i],
            ),
{
    let configs = config.traces@;
    let count = configs.len() as int;
    lemma_places_kept(workspace, store, config);
    let places = kept_places(configs, count);
    assert forall|k: int| 0 <= k < places.len() implies configs[#[trigger] places[k]].id.0
        < workspace.next_id by {
        assert(places[k] == k);
        assert(workspace.traces@[k].id.0 < workspace.next_id);
        assert(configs[k].id == workspace.traces@[k].id);
    }
    lemma_next_bounded(configs, places, 1, workspace.next_id);
    if let Some(id) = workspace.selected {
        let k = choose|k: int|
            0 <= k < workspace.traces@.len() && (#[trigger] workspace.traces@[k]).id == id;
        assert(configs[k].id == id);
        assert(places[k] == k);
        assert(defines(configs, places, id));
    }
    law_smith_views_settle(
        SmithViewConfig {
            zoom: workspace.smith.zoom,
            dx: workspace.smith.dx,
            dy: workspace.smith.dy,
        },
    );
    assert forall|i: int| 0 <= i < workspace.traces@.len() implies comes_back(
        #[trigger] restored.traces@[i],
        workspace.traces@[i],
    ) by {
        assert(places[i] == i);
        assert(configs[i].is_stored(workspace.traces@[i], store.traces@[i]));
        assert(settings_survive(workspace.traces@[i].settings, restore.traces@[i]));
        law_stored_traces_come_back(
            workspace.traces@[i],
            store.traces@[i],
            configs[i],
            restore.traces@[i],
            config.restored_x(restore),
            restored.traces@[i],
        );
    }
}

/// Settings that were stored come back: the language, the device, the saved
/// devices, the theme, the page and the sources, and the workspace. Nothing
/// runs, and no output is on.
pub proof fn law_stored_settings_come_back(
    state: AppState,
    store: StoreFacts,
    config: AppConfig,
    fresh: AppState,
    system: Language,
    restore: RestoreFacts,
    legacy: LegacyFacts,
    restored: AppState,
)
    requires
        config.is_snapshot(state, store),
        config.is_applied(restored, fresh, system, restore, legacy),
    ensures
        restored.language_preference == state.language_preference,
        restored.language == state.language_preference.resolved(system),
        restored.target == state.target,
        restored.legacy_sweeps == state.legacy_sweeps,
        restored.desktop.settings.profiles@ == state.desktop.settings.profiles@,
        restored.desktop.settings.theme == state.desktop.settings.theme,
        restored.function == state.function,
        restored.source == SourceUi::idle(state.source.config),
        !restored.running(),
        restored.active_plan is None,
        restored.calibration == CalibrationUi::fresh(),
        config.workspace.is_stored(state.workspace, store),
        config.workspace.is_restored(restored.workspace, restore),
{
}

/// Whether a trace is as the program leaves it: its width can be drawn, its
/// markers are normal and numbered, and its analysis fits its projection.
pub open spec fn is_settled(trace: TraceState) -> bool {
    let analysis = trace.analysis;
    let smith = trace.settings.display.smith();
    &&& trace.settings.line_width.drawn() == trace.settings.line_width
    &&& analysis.wf()
    &&& analysis_tools::normal_markers(analysis.markers@)
    &&& analysis_tools::numbered_below(analysis.markers@, analysis.next_id)
    &&& analysis.markers@ == analysis_tools::smith_markers(analysis.markers@, smith)
    &&& analysis.target == analysis_tools::smith_target(analysis.target, smith)
    &&& match trace.settings.display.spec_fixed_column() {
        Some(column) => analysis.column == column,
        None => analysis.column <= 2,
    }
    &&& overlays_known(analysis.overlay_visibility@)
}

/// Whether what is known of a trace when it is stored, restored and stored again
/// agrees: the driver knows its names again and gives the same ones, the stored
/// axis can be drawn on the scale that was stored, and arithmetic repeats.
pub open spec fn facts_agree(
    config: TraceConfig,
    settings: TraceSettings,
    restore: RestoredTrace,
    again: StoredTrace,
) -> bool {
    let view = config.y_view->0;
    &&& restore.cal == Some(settings.cal)
    &&& restore.rbw == Some(settings.rbw)
    &&& restore.lo == Some(settings.lo)
    &&& again.names.cal@ == config.cal@
    &&& again.names.rbw@ == config.rbw@
    &&& again.names.lo@ == config.lo@
    &&& again.y == restore.y
    &&& view.fits_scale(restore.floor, restore.y)
    &&& if view.log_y {
        restore.log_scale is Some && !(restore.log_scale->0 is Linear)
    } else {
        restore.view.y_scale is Linear
    }
}

/// Whether two stored traces are the same.
pub open spec fn same_trace(a: TraceConfig, b: TraceConfig) -> bool {
    &&& a.id == b.id
    &&& a.display@ == b.display@
    &&& a.cal@ == b.cal@ && a.rbw@ == b.rbw@ && a.lo@ == b.lo@
    &&& a.ref_level_dbm == b.ref_level_dbm
    &&& a.visible == b.visible
    &&& a.color == b.color
    &&& a.line_width == b.line_width
    &&& a.impedance_visible == b.impedance_visible
    &&& a.y_view == b.y_view
    &&& a.analysis is Some && b.analysis is Some && a.analysis->0.same_as(b.analysis->0)
}

/// Whether two stored workspaces are the same.
pub open spec fn same_workspace(a: WorkspaceConfig, b: WorkspaceConfig) -> bool {
    &&& a.start_hz == b.start_hz && a.stop_hz == b.stop_hz && a.points == b.points
    &&& a.list_mode == b.list_mode
    &&& a.sweep_mode == b.sweep_mode
    &&& a.segments@ == b.segments@
    &&& a.frequencies_hz@ == b.frequencies_hz@
    &&& a.run == b.run
    &&& a.log_x == b.log_x
    &&& a.selected == b.selected
    &&& a.next_id == b.next_id
    &&& a.x_view == b.x_view
    &&& a.smith_view == b.smith_view
    &&& a.traces@.len() == b.traces@.len()
    &&& forall|i: int| 0 <= i < a.traces@.len() ==> same_trace(#[trigger] a.traces@[i], b.traces@[i])
}

/// Whether two stored sets of settings are the same.
pub open spec fn same_settings(a: AppConfig, b: AppConfig) -> bool {
    &&& a.version == b.version
    &&& a.language == b.language
    &&& a.mode@ == b.mode@
    &&& a.connection == b.connection
    &&& a.spec.is_standard() && b.spec.is_standard()
    &&& a.s11.is_standard() && b.s11.is_standard()
    &&& a.legacy_sweeps == b.legacy_sweeps
    &&& same_workspace(a.workspace, b.workspace)
    &&& a.desktop.profiles@ == b.desktop.profiles@
    &&& a.desktop.theme == b.desktop.theme
    &&& a.function == b.function
    &&& a.sources == b.sources
}

proof fn lemma_trace_stored_again(
    before: TraceState,
    store: StoredTrace,
    config: TraceConfig,
    restore: RestoredTrace,
    x_view: XViewConfig,
    restored: TraceState,
    again: StoredTrace,
    stored: TraceConfig,
)
    requires
        is_settled(before),
        config.is_stored(before, store),
        config.is_restored(restored, restore, x_view),
        stored.is_stored(restored, again),
        facts_agree(config, before.settings, restore, again),
    ensures
        same_trace(stored, config),
        restored.completed is None && restored.preview is None,
{
    assert(settings_survive(before.settings, restore));
    law_stored_traces_come_back(before, store, config, restore, x_view, restored);
    law_projection_names_come_back(before.settings.display);
    let view = config.y_view->0;
    assert(restored.view == config.restored_view(restore, x_view));
    assert(TraceConfig::current_y(restored) == view);
    assert(view.usable(again.y));
    assert(stored.y_view == config.y_view);
}

/// Settings that were restored are stored again as they were, as far as what is
/// known of them from outside agrees. A state that was restored has no
/// measurement and runs nothing, whatever the stored one had.
pub proof fn law_restored_settings_are_stored_again(
    state: AppState,
    store: StoreFacts,
    config: AppConfig,
    fresh: AppState,
    system: Language,
    restore: RestoreFacts,
    legacy: LegacyFacts,
    restored: AppState,
    again: StoreFacts,
    stored: AppConfig,
)
    requires
        state.workspace.wf(),
        state.workspace.segments@.len() <= MAX_SEGMENTS,
        state.workspace.selected is Some || state.workspace.traces@.len() == 0,
        forall|i: int|
            0 <= i < state.workspace.traces@.len() ==> is_settled(
                #[trigger] state.workspace.traces@[i],
            ),
        config.is_snapshot(state, store),
        config.is_applied(restored, fresh, system, restore, legacy),
        stored.is_snapshot(restored, again),
        config.workspace.x_view->0.usable(state.workspace.log_x, restore.x),
        again.x == restore.x,
        forall|i: int|
            0 <= i < state.workspace.traces@.len() ==> facts_agree(
                config.workspace.traces@[i],
                (#[trigger] state.workspace.traces@[i]).settings,
                restore.traces@[i],
                again.traces@[i],
            ),
    ensures
        same_settings(stored, config),
        !restored.running() && restored.active_plan is None,
        forall|i: int|
            0 <= i < restored.workspace.traces@.len() ==> (
            #[trigger] restored.workspace.traces@[i]).completed is None
                && restored.workspace.traces@[i].preview is None,
{
    let workspace = state.workspace;
    let kept = restored.workspace;
    let configs = config.workspace.traces@;
    assert forall|i: int| 0 <= i < workspace.traces@.len() implies settings_survive(
        (#[trigger] workspace.traces@[i]).settings,
        restore.traces@[i],
    ) by {
        assert(is_settled(workspace.traces@[i]));
        assert(facts_agree(
            configs[i],
            workspace.traces@[i].settings,
            restore.traces@[i],
            again.traces@[i],
        ));
    }
    law_stored_workspaces_come_back(workspace, store, config.workspace, restore, kept);
    lemma_places_kept(workspace, store, config.workspace);
    let places = kept_places(configs, configs.len() as int);
    assert forall|i: int| 0 <= i < kept.traces@.len() implies same_trace(
        stored.workspace.traces@[i],
        configs[i],
    ) && (#[trigger] kept.traces@[i]).completed is None && kept.traces@[i].preview is None by {
        assert(places[i] == i);
        assert(is_settled(workspace.traces@[i]));
        assert(configs[i].is_stored(workspace.traces@[i], store.traces@[i]));
        assert(stored.workspace.traces@[i].is_stored(kept.traces@[i], again.traces@[i]));
        lemma_trace_stored_again(
            workspace.traces@[i],
            store.traces@[i],
            configs[i],
            restore.traces@[i],
            config.workspace.restored_x(restore),
            kept.traces@[i],
            again.traces@[i],
            stored.workspace.traces@[i],
        );
    }
    assert forall|i: int| 0 <= i < stored.workspace.traces@.len() implies same_trace(
        #[trigger] stored.workspace.traces@[i],
        configs[i],
    ) by {
        assert(kept.traces@[i].completed is None);
    }
    law_smith_views_settle(
        SmithViewConfig {
            zoom: workspace.smith.zoom,
            dx: workspace.smith.dx,
            dy: workspace.smith.dy,
        },
    );
    if workspace.traces@.len() == 0 {
        assert(places.len() == 0);
        assert(workspace.selected is None);
    }
}

/// A mode is stored by its name. Early files know two of them: whatever does not
/// name reflection is a spectrum.
pub proof fn law_modes_are_named(mode: AppMode, name: &'static str, s: &str, parsed: AppMode)
    requires
        call_ensures(mode_as_str, (mode,), name),
        call_ensures(parse_mode, (s,), parsed),
    ensures
        mode is Spec ==> name@ == "spec"@,
        mode is S11 ==> name@ == "s11"@,
        mode is S21 ==> name@ == "s21"@,
        parsed is S11 <==> s@ == "s11"@,
        parsed is Spec <==> s@ != "s11"@,
{
}

/// A reflection display is stored by its name and read back by it. A name that
/// nobody knows shows return loss.
pub proof fn law_displays_are_named(
    display: S11Display,
    name: &'static str,
    s: &str,
    parsed: S11Display,
)
    requires
        call_ensures(display_as_str, (display,), name),
        call_ensures(parse_display, (s,), parsed),
    ensures
        name@ == (match display {
            S11Display::Phase => "phase"@,
            S11Display::ReturnLoss => "return_loss"@,
            S11Display::Vswr => "vswr"@,
            S11Display::Smith => "smith"@,
            S11Display::Impedance => "impedance"@,
            S11Display::Magnitude => "magnitude"@,
            S11Display::Resistance => "resistance"@,
            S11Display::Reactance => "reactance"@,
        }),
        s@ == name@ ==> parsed == display,
        s@ != "phase"@ && s@ != "vswr"@ && s@ != "smith"@ && s@ != "impedance"@ && s@
            != "magnitude"@ && s@ != "resistance"@ && s@ != "reactance"@ ==> parsed is ReturnLoss,
{
    law_projection_names_come_back(TraceDisplay::S11(display));
}

/// A trace's settings are stored by name and come back: what was stored of the
/// projection, the level, the colour and the columns, and of the receiver what
/// the driver makes of its names. Unknown names fall back to no correction,
/// 10 kHz and the high side, and an unknown projection to the spectrum.
pub proof fn law_settings_are_named(
    id: TraceId,
    settings: &TraceSettings,
    names: &WireNames,
    stored: TraceConfig,
    facts: &RestoredTrace,
    other: TraceConfig,
    read: TraceSettings,
)
    requires
        call_ensures(TraceConfig::from_settings, (id, settings, names), stored),
        call_ensures(TraceConfig::settings, (&other, facts), read),
    ensures
        stored.id == id && stored.y_view is None && stored.analysis is None,
        stored.display@ == (match settings.display {
            TraceDisplay::Spec => "spec"@,
            TraceDisplay::S11(S11Display::Phase) => "phase"@,
            TraceDisplay::S11(S11Display::ReturnLoss) => "return_loss"@,
            TraceDisplay::S11(S11Display::Vswr) => "vswr"@,
            TraceDisplay::S11(S11Display::Smith) => "smith"@,
            TraceDisplay::S11(S11Display::Impedance) => "impedance"@,
            TraceDisplay::S11(S11Display::Magnitude) => "magnitude"@,
            TraceDisplay::S11(S11Display::Resistance) => "resistance"@,
            TraceDisplay::S11(S11Display::Reactance) => "reactance"@,
            TraceDisplay::S21(S21Display::Phase) => "s21_phase"@,
            TraceDisplay::S21(S21Display::Loss) => "s21_loss"@,
            TraceDisplay::S21(S21Display::Delay) => "s21_delay"@,
        }),
        stored.cal@ == names.cal@ && stored.rbw@ == names.rbw@ && stored.lo@ == names.lo@,
        stored.ref_level_dbm == settings.ref_level_dbm,
        stored.visible == settings.visible,
        stored.color == settings.color,
        stored.line_width == settings.line_width,
        stored.impedance_visible == settings.impedance_visible,
        other.display@ == stored.display@ ==> read.display == settings.display,
        other.display@ != "phase"@ && other.display@ != "return_loss"@ && other.display@ != "vswr"@
            && other.display@ != "smith"@ && other.display@ != "impedance"@ && other.display@
            != "magnitude"@ && other.display@ != "resistance"@ && other.display@ != "reactance"@
            && other.display@ != "s21_phase"@ && other.display@ != "s21_loss"@ && other.display@
            != "s21_delay"@ ==> read.display is Spec,
        facts.cal matches Some(cal) ==> read.cal == cal,
        facts.cal is None ==> read.cal is CalOff,
        facts.rbw matches Some(rbw) ==> read.rbw == rbw,
        facts.rbw is None ==> read.rbw.hz == 10_000,
        facts.lo matches Some(lo) ==> read.lo == lo,
        facts.lo is None ==> read.lo is HighLo,
        read.ref_level_dbm == other.ref_level_dbm,
        read.visible == other.visible,
        read.color == other.color,
        read.impedance_visible == other.impedance_visible,
        read.line_width == other.line_width.drawn(),
{
    law_projection_names_come_back(settings.display);
}

/// A range can be drawn between two finite numbers in order whose distance is
/// finite. A vertical axis also needs a finite middle and divisions that do not
/// vanish, and one that starts somewhere may not reach below.
pub proof fn law_drawn_ranges_are_finite(
    min: Real,
    max: Real,
    facts: &SpanFacts,
    spans: bool,
    view: YViewConfig,
    valid: bool,
    floor: Option<Real>,
    fits: bool,
    x_view: XViewConfig,
    log_x: bool,
    shows: bool,
)
    requires
        call_ensures(valid_span, (min, max, facts), spans),
        call_ensures(YViewConfig::valid, (view, facts), valid),
        call_ensures(YViewConfig::valid_on, (view, floor, facts), fits),
        call_ensures(XViewConfig::valid, (x_view, log_x, facts), shows),
    ensures
        spans <==> min.finite() && max.finite() && min.below(max) && facts.difference.finite(),
        valid <==> view.min.finite() && view.max.finite() && view.min.below(view.max)
            && facts.difference.finite() && facts.sum.finite() && !facts.division.is_nan()
            && facts.division.rank() > 0,
        floor is None ==> fits == valid,
        floor is Some ==> (fits <==> valid && !floor->0.is_nan() && floor->0.rank()
            <= view.min.rank() && facts.log_min.below(facts.log_max)),
        shows ==> x_view.min.finite() && x_view.max.finite() && x_view.min.below(x_view.max)
            && facts.difference.finite(),
        !log_x && x_view.min.finite() && x_view.max.finite() && x_view.min.below(x_view.max)
            && facts.difference.finite() ==> shows,
        log_x && shows ==> x_view.min.rank() > 0 && facts.log_min.below(facts.log_max),
        log_x && x_view.min.finite() && x_view.max.finite() && x_view.min.below(x_view.max)
            && facts.difference.finite() && x_view.min.rank() > 0 && facts.log_min.below(
            facts.log_max,
        ) ==> shows,
{
}

/// A chart shows the whole range. A logarithmic axis of a range that begins at
/// zero or below starts one step above zero, or at a tenth of the end where the
/// step is of no use. A range that cannot be drawn is replaced by the standard
/// one.
pub proof fn law_charts_show_the_whole_range(
    log_x: bool,
    facts: &RangeFacts,
    view: XViewConfig,
    shown: bool,
    raised: bool,
    start: Real,
)
    requires
        call_ensures(XViewConfig::for_range, (log_x, facts), view),
        call_ensures(
            XViewConfig::valid,
            (XViewConfig { min: facts.start_hz, max: facts.stop_hz }, log_x, &facts.span),
            shown,
        ),
        call_ensures(
            XViewConfig::raised_start,
            (facts.step, facts.tenth, facts.stop_hz),
            start,
        ),
        call_ensures(
            XViewConfig::valid,
            (XViewConfig { min: start, max: facts.stop_hz }, log_x, &facts.raised),
            raised,
        ),
    ensures
        zero().below(facts.step) && facts.step.below(facts.stop_hz) ==> start == facts.step,
        !(zero().below(facts.step) && facts.step.below(facts.stop_hz)) ==> start == facts.tenth,
        shown ==> view.min == facts.start_hz && view.max == facts.stop_hz,
        !shown && !log_x ==> view == facts.standard,
        log_x && facts.start_hz.finite() && facts.stop_hz.finite() && facts.span.difference.finite()
            && facts.start_hz.rank() <= 0 && facts.stop_hz.rank() > 0 ==> {
            &&& raised ==> view.min == start && view.max == facts.stop_hz
            &&& !raised ==> view == facts.standard
        },
        !shown && facts.start_hz.rank() > 0 ==> view == facts.standard,
{
}

/// A chart of the workspace shows the whole range, and on a logarithmic axis
/// begins at the first positive point of the grid where the range begins below.
pub proof fn law_workspaces_start_at_a_point(
    log_x: bool,
    facts: &RangeFacts,
    view: XViewConfig,
    whole: XViewConfig,
)
    requires
        call_ensures(XViewConfig::for_workspace, (log_x, facts), view),
        call_ensures(XViewConfig::for_range, (log_x, facts), whole),
    ensures
        view.max == whole.max,
        !log_x || facts.positive is None || facts.start_hz.rank() > 0 ==> view == whole,
        log_x && facts.positive is Some && !facts.start_hz.is_nan() && facts.start_hz.rank() <= 0
            && facts.positive->0.below(facts.stop_hz) ==> view.min == facts.positive->0,
        log_x && facts.positive is Some && !facts.positive->0.below(facts.stop_hz) ==> view
            == whole,
{
}

/// Between two and thirty divisions are drawn, and as many as were asked for
/// where these are.
pub proof fn law_divisions_are_limited(divisions: usize, drawn: usize)
    requires
        call_ensures(clamp_divisions, (divisions,), drawn),
    ensures
        2 <= drawn <= 30,
        2 <= divisions <= 30 ==> drawn == divisions,
        divisions < 2 ==> drawn == 2,
        divisions > 30 ==> drawn == 30,
{
}

/// A Smith chart comes back as it was shown where it can be mapped: zoomed
/// between one fifth and two hundred, which are these numbers, and not moved out
/// of reach. What is no finite number is left at its standard value.
pub proof fn law_smith_charts_can_be_mapped(view: SmithViewConfig, restored: SmithView)
    requires
        call_ensures(SmithViewConfig::restore, (view,), restored),
    ensures
        0x3fc9_9999_9999_999a <= restored.zoom.bits <= 0x4069_0000_0000_0000,
        0x3fc9_9999_9999_999a <= view.zoom.bits <= 0x4069_0000_0000_0000 ==> restored.zoom
            == view.zoom,
        view.zoom.finite() && view.zoom.rank() < 0x3fc9_9999_9999_999a ==> restored.zoom.bits
            == 0x3fc9_9999_9999_999a,
        view.zoom.finite() && view.zoom.rank() > 0x4069_0000_0000_0000 ==> restored.zoom.bits
            == 0x4069_0000_0000_0000,
        !view.zoom.finite() ==> restored.zoom.bits == 0x3ff0_0000_0000_0000,
        restored.dx.magnitude() <= 0x4635_798e_ccb6_fd58 && restored.dy.magnitude()
            <= 0x4635_798e_ccb6_fd58,
        view.dx.magnitude() <= 0x4635_798e_ccb6_fd58 ==> restored.dx == view.dx,
        view.dy.magnitude() <= 0x4635_798e_ccb6_fd58 ==> restored.dy == view.dy,
        view.dx.magnitude() > 0x4635_798e_ccb6_fd58 ==> restored.dx.bits == 0,
        view.dy.magnitude() > 0x4635_798e_ccb6_fd58 ==> restored.dy.bits == 0,
{
}

/// What is stored of a trace: its settings, its axis where that can be drawn and
/// the projection's own where not, its markers and what it holds. An axis that
/// cannot be drawn is not locked.
pub proof fn law_traces_are_stored(
    trace: &TraceState,
    facts: &StoredTrace,
    config: TraceConfig,
    shown: YViewConfig,
    valid: bool,
    drawn: usize,
)
    requires
        call_ensures(TraceConfig::from_trace, (trace, facts), config),
        shown.min == trace.view.y_min && shown.max == trace.view.y_max,
        call_ensures(YViewConfig::valid, (shown, &facts.y), valid),
        call_ensures(clamp_divisions, (trace.view.y_divisions,), drawn),
    ensures
        config.id == trace.id,
        config.display@ == projection_name(trace.settings.display),
        config.cal@ == facts.names.cal@ && config.rbw@ == facts.names.rbw@ && config.lo@
            == facts.names.lo@,
        config.ref_level_dbm == trace.settings.ref_level_dbm,
        config.visible == trace.settings.visible,
        config.color == trace.settings.color,
        config.line_width == trace.settings.line_width,
        config.impedance_visible == trace.settings.impedance_visible,
        config.y_view is Some,
        valid ==> config.y_view->0.min == trace.view.y_min && config.y_view->0.max
            == trace.view.y_max && config.y_view->0.locked == trace.view_locked,
        !valid ==> config.y_view->0.min == facts.default_y.0 && config.y_view->0.max
            == facts.default_y.1 && !config.y_view->0.locked,
        config.y_view->0.divisions == drawn,
        config.y_view->0.log_y <==> !(trace.view.y_scale is Linear),
        config.analysis is Some,
        config.analysis->0.markers@ == trace.analysis.markers@,
        config.analysis->0.next_id == trace.analysis.next_id,
        config.analysis->0.hold == trace.analysis.hold,
        config.analysis->0.max_hold == trace.analysis.max_hold,
        config.analysis->0.min_hold == trace.analysis.min_hold,
        config.analysis->0.column == trace.analysis.column,
        config.analysis->0.target == trace.analysis.target,
{
}

/// A logarithmic axis comes back where the projection has one, and a new view's
/// own scale otherwise.
pub proof fn law_scales_come_back(config: &TraceConfig, facts: &RestoredTrace, scale: YScale)
    requires
        call_ensures(TraceConfig::scale, (config, facts), scale),
    ensures
        config.y_view is Some && config.y_view->0.log_y && facts.log_scale is Some ==> scale
            == facts.log_scale->0,
        config.y_view is None || !config.y_view->0.log_y || facts.log_scale is None ==> scale
            == facts.view.y_scale,
{
}

/// A restored trace is the stored one without measurements. It shows the shared
/// frequencies, and its own axis where that can be drawn. One whose axis is not
/// locked is fitted anew.
pub proof fn law_traces_are_restored(
    config: &TraceConfig,
    facts: &RestoredTrace,
    x_view: XViewConfig,
    trace: TraceState,
    settings: TraceSettings,
    scale: YScale,
    fits: bool,
    drawn: usize,
)
    requires
        call_ensures(TraceConfig::restore, (config, facts, x_view), trace),
        call_ensures(TraceConfig::settings, (config, facts), settings),
        call_ensures(TraceConfig::scale, (config, facts), scale),
        config.y_view is Some ==> call_ensures(
            YViewConfig::valid_on,
            (config.y_view->0, facts.floor, &facts.y),
            fits,
        ),
        config.y_view is Some ==> call_ensures(
            clamp_divisions,
            (config.y_view->0.divisions,),
            drawn,
        ),
    ensures
        trace.id == config.id,
        trace.settings == settings,
        trace.completed is None && trace.preview is None && trace.last_completed_cycle is None,
        trace.analysis.latest is None && trace.analysis.held is None,
        trace.view.x_min == x_view.min && trace.view.x_max == x_view.max,
        config.y_view is Some ==> trace.view.y_scale == scale && trace.view.y_divisions == drawn,
        config.y_view is Some && fits ==> trace.view.y_min == config.y_view->0.min
            && trace.view.y_max == config.y_view->0.max && trace.view_locked
            == config.y_view->0.locked,
        config.y_view is Some && !fits ==> trace.view.y_min == facts.fallback.0 && trace.view.y_max
            == facts.fallback.1 && !trace.view_locked,
        config.y_view is None ==> trace.view.y_min == facts.view.y_min && trace.view.y_max
            == facts.view.y_max && !trace.view_locked,
        trace.needs_fit <==> !trace.view_locked,
{
}

proof fn lemma_kept_until_full(traces: Seq<TraceConfig>, count: int, i: int)
    requires
        0 <= i < count <= traces.len(),
        usable_id(traces[i].id),
    ensures
        kept_places(traces, count).len() == MAX_TRACES || defines(
            traces,
            kept_places(traces, count),
            traces[i].id,
        ),
        kept_places(traces, count - 1).len() <= kept_places(traces, count).len() <= MAX_TRACES,
    decreases count,
{
    let before = kept_places(traces, count - 1);
    let after = kept_places(traces, count);
    lemma_kept_places(traces, count);
    lemma_kept_places(traces, count - 1);
    if i < count - 1 {
        lemma_kept_until_full(traces, count - 1, i);
        if defines(traces, before, traces[i].id) {
            let k = choose|k: int| 0 <= k < before.len() && traces[#[trigger] before[k]].id
                == traces[i].id;
            assert(after[k] == before[k]);
        }
    } else if after.len() > before.len() {
        assert(after[before.len() as int] == count - 1);
    }
}

proof fn lemma_kept_first(traces: Seq<TraceConfig>, count: int, k: int, i: int)
    requires
        0 <= count <= traces.len(),
        0 <= k < kept_places(traces, count).len(),
        0 <= i < kept_places(traces, count)[k],
    ensures
        traces[i].id != traces[kept_places(traces, count)[k]].id,
    decreases count,
{
    let before = kept_places(traces, count - 1);
    let after = kept_places(traces, count);
    lemma_kept_places(traces, count);
    if k < before.len() {
        assert(after[k] == before[k]);
        lemma_kept_first(traces, count - 1, k, i);
    } else {
        assert(after[k] == count - 1);
        if traces[i].id == traces[count - 1].id {
            lemma_kept_until_full(traces, count - 1, i);
        }
    }
}

/// A workspace comes back as it was stored: its frequencies, how it sweeps, how
/// it records and what is shown. An early file chooses the list by its own flag,
/// and too long a plan of segments is dropped.
pub proof fn law_workspaces_are_restored(
    config: &WorkspaceConfig,
    facts: &RestoreFacts,
    workspace: Workspace,
    usable: bool,
    whole: XViewConfig,
    smith: SmithView,
)
    requires
        facts.traces@.len() == config.traces@.len(),
        call_ensures(WorkspaceConfig::restore, (config, facts), workspace),
        config.smith_view is Some ==> call_ensures(
            SmithViewConfig::restore,
            (config.smith_view->0,),
            smith,
        ),
        config.x_view is Some ==> call_ensures(
            XViewConfig::valid,
            (config.x_view->0, config.log_x, &facts.x),
            usable,
        ),
        call_ensures(XViewConfig::for_workspace, (config.log_x, &facts.range), whole),
    ensures
        workspace.range.start_hz == config.start_hz && workspace.range.stop_hz == config.stop_hz
            && workspace.range.points == config.points,
        workspace.log_x == config.log_x,
        workspace.run == config.run,
        workspace.frequencies_hz@ == config.frequencies_hz@,
        config.segments@.len() <= 32 ==> workspace.segments@ == config.segments@,
        config.segments@.len() > 32 ==> workspace.segments@.len() == 0,
        config.sweep_mode matches Some(mode) ==> workspace.sweep_mode == mode,
        config.sweep_mode is None ==> workspace.sweep_mode == if config.list_mode {
            SweepMode::List
        } else {
            SweepMode::Range
        },
        config.x_view is Some && usable ==> workspace.x_view.x_min == config.x_view->0.min
            && workspace.x_view.x_max == config.x_view->0.max,
        config.x_view is None || !usable ==> workspace.x_view.x_min == whole.min
            && workspace.x_view.x_max == whole.max,
        config.smith_view is Some ==> workspace.smith == smith,
        config.smith_view is None ==> workspace.smith.zoom.bits == 0x3ff0_0000_0000_0000
            && workspace.smith.dx.bits == 0 && workspace.smith.dy.bits == 0,
        workspace.editor is None,
{
}

/// The traces of a restored workspace: the first ten definitions whose numbers
/// can be used and were not used before, in order. None comes from nowhere, no
/// number is there twice, and the next number is above all of them.
pub proof fn law_definitions_are_restored_once(
    config: &WorkspaceConfig,
    facts: &RestoreFacts,
    workspace: Workspace,
    i: int,
    j: int,
    k: int,
)
    requires
        facts.traces@.len() == config.traces@.len(),
        call_ensures(WorkspaceConfig::restore, (config, facts), workspace),
    ensures
        workspace.traces@.len() <= 10,
        workspace.next_id >= config.next_id && workspace.next_id >= 1,
        0 <= k < workspace.traces@.len() ==> workspace.traces@[k].id.0 != 0
            && workspace.traces@[k].id.0 != u64::MAX && workspace.traces@[k].id.0
            < workspace.next_id,
        0 <= j < k < workspace.traces@.len() ==> workspace.traces@[j].id
            != workspace.traces@[k].id,
        0 <= k < workspace.traces@.len() ==> is_first_definition(
            *config,
            *facts,
            workspace.traces@[k],
        ),
        0 <= i < config.traces@.len() && config.traces@[i].id.0 != 0 && config.traces@[i].id.0
            != u64::MAX && workspace.traces@.len() < 10 ==> workspace::has_trace(
            workspace.traces@,
            config.traces@[i].id,
        ),
        config.selected is Some && workspace::has_trace(workspace.traces@, config.selected->0)
            ==> workspace.selected == config.selected,
        !(config.selected is Some && workspace::has_trace(workspace.traces@, config.selected->0))
            && workspace.traces@.len() > 0 ==> workspace.selected == Some(
            workspace.traces@.last().id,
        ),
        workspace.traces@.len() == 0 ==> workspace.selected is None,
{
    let traces = config.traces@;
    let count = traces.len() as int;
    let places = kept_places(traces, count);
    lemma_kept_places(traces, count);
    lemma_next_after(traces, places, 1);
    assert forall|m: int| 0 <= m < places.len() implies (#[trigger] workspace.traces@[m]).id
        == traces[places[m]].id by {
        assert(traces[places[m]].is_restored(
            workspace.traces@[m],
            facts.traces@[places[m]],
            config.restored_x(*facts),
        ));
    }
    if 0 <= k < places.len() {
        let place = places[k];
        assert(0 <= place < count);
        assert(workspace.traces@[k].id == traces[place].id);
        assert forall|m: int| 0 <= m < place implies (#[trigger] traces[m]).id
            != workspace.traces@[k].id by {
            lemma_kept_first(traces, count, k, m);
        }
        assert(is_definition(*config, *facts, workspace.traces@[k], place));
    }
    if 0 <= j < k < places.len() {
        assert(traces[places[j]].id != traces[places[k]].id);
    }
    if 0 <= i < count && usable_id(traces[i].id) && workspace.traces@.len() < 10 {
        lemma_kept_until_full(traces, count, i);
        let m = choose|m: int| 0 <= m < places.len() && traces[#[trigger] places[m]].id
            == traces[i].id;
        assert(workspace.traces@[m].id == traces[i].id);
    }
    if let Some(id) = config.selected {
        if workspace::has_trace(workspace.traces@, id) {
            let m = choose|m: int| 0 <= m < places.len() && (#[trigger] workspace.traces@[m]).id
                == id;
            assert(traces[places[m]].id == id);
        } else if defines(traces, places, id) {
            let m = choose|m: int| 0 <= m < places.len() && traces[#[trigger] places[m]].id == id;
            assert(workspace.traces@[m].id == id);
        }
    }
}

/// Whether a trace has the number of the definition at a place, which no earlier
/// one has, and its settings.
pub open spec fn is_definition(
    config: WorkspaceConfig,
    facts: RestoreFacts,
    trace: TraceState,
    place: int,
) -> bool {
    &&& 0 <= place < config.traces@.len()
    &&& config.traces@[place].id == trace.id
    &&& trace.settings == config.traces@[place].spec_settings(facts.traces@[place])
    &&& forall|m: int| 0 <= m < place ==> (#[trigger] config.traces@[m]).id != trace.id
}

/// Whether a trace stands for the first definition with its number.
pub open spec fn is_first_definition(
    config: WorkspaceConfig,
    facts: RestoreFacts,
    trace: TraceState,
) -> bool {
    exists|place: int| is_definition(config, facts, trace, place)
}

/// A workspace is stored with its frequencies, how it sweeps and records, what
/// is selected and shown, and all its traces in order. It never takes the way
/// that early files had to choose the list.
pub proof fn law_workspaces_are_stored(
    workspace: &Workspace,
    facts: &StoreFacts,
    config: WorkspaceConfig,
    shown: XViewConfig,
    usable: bool,
    whole: XViewConfig,
    i: int,
)
    requires
        facts.traces@.len() == workspace.traces@.len(),
        call_ensures(WorkspaceConfig::from_workspace, (workspace, facts), config),
        shown.min == workspace.x_view.x_min && shown.max == workspace.x_view.x_max,
        call_ensures(XViewConfig::valid, (shown, workspace.log_x, &facts.x), usable),
        call_ensures(XViewConfig::for_workspace, (workspace.log_x, &facts.range), whole),
    ensures
        config.start_hz == workspace.range.start_hz && config.stop_hz == workspace.range.stop_hz
            && config.points == workspace.range.points,
        config.log_x == workspace.log_x && config.run == workspace.run,
        config.sweep_mode == Some(workspace.sweep_mode) && !config.list_mode,
        config.segments@ == workspace.segments@,
        config.frequencies_hz@ == workspace.frequencies_hz@,
        config.selected == workspace.selected && config.next_id == workspace.next_id,
        usable ==> config.x_view == Some(shown),
        !usable ==> config.x_view == Some(whole),
        config.smith_view is Some,
        0x3fc9_9999_9999_999a <= workspace.smith.zoom.bits <= 0x4069_0000_0000_0000
            ==> config.smith_view->0.zoom == workspace.smith.zoom,
        workspace.smith.dx.magnitude() <= 0x4635_798e_ccb6_fd58 ==> config.smith_view->0.dx
            == workspace.smith.dx,
        workspace.smith.dy.magnitude() <= 0x4635_798e_ccb6_fd58 ==> config.smith_view->0.dy
            == workspace.smith.dy,
        config.traces@.len() == workspace.traces@.len(),
        0 <= i < config.traces@.len() ==> config.traces@[i].id == workspace.traces@[i].id
            && config.traces@[i].visible == workspace.traces@[i].settings.visible
            && config.traces@[i].display@ == projection_name(
            workspace.traces@[i].settings.display,
        ) && config.traces@[i].analysis is Some && config.traces@[i].analysis->0.markers@
            == workspace.traces@[i].analysis.markers@,
{
    if 0 <= i < config.traces@.len() {
        assert(config.traces@[i].is_stored(workspace.traces@[i], facts.traces@[i]));
    }
}

/// An early file measures in the mode that it names: it takes that mode's grid
/// and shows that mode's trace. The spectrum keeps its bandwidth and level, the
/// reflection its display, correction and bandwidth.
pub proof fn law_early_files_measure_in_their_mode(
    config: &AppConfig,
    grid: (SweepRange, bool),
    defaults: TraceSettings,
    rbw: Option<Rbw>,
    cal: Option<Cal>,
    color: Color,
    spectrum: TraceSettings,
    reflection: TraceSettings,
)
    requires
        call_ensures(AppConfig::early_grid, (config,), grid),
        call_ensures(AppConfig::early_spec, (config, defaults, rbw), spectrum),
        call_ensures(AppConfig::early_s11, (config, defaults, cal, rbw, color), reflection),
    ensures
        config.mode@ == "s11"@ ==> grid.0.start_hz == config.s11.start_hz && grid.0.stop_hz
            == config.s11.stop_hz && grid.0.points == config.s11.points && grid.1
            == config.s11.log_x,
        config.mode@ != "s11"@ ==> grid.0.start_hz == config.spec.start_hz && grid.0.stop_hz
            == config.spec.stop_hz && grid.0.points == config.spec.points && grid.1
            == config.spec.log_x,
        spectrum.visible <==> config.mode@ != "s11"@,
        reflection.visible <==> config.mode@ == "s11"@,
        rbw matches Some(width) ==> spectrum.rbw == width && reflection.rbw == width,
        rbw is None ==> spectrum.rbw.hz == 10_000 && reflection.rbw.hz == 10_000,
        cal matches Some(kind) ==> reflection.cal == kind,
        cal is None ==> reflection.cal is CalOff,
        spectrum.ref_level_dbm == config.spec.ref_level_dbm,
        spectrum.display == defaults.display && spectrum.cal == defaults.cal && spectrum.color
            == defaults.color && spectrum.line_width == defaults.line_width && spectrum.lo
            == defaults.lo,
        reflection.display is S11 && reflection.color == color && reflection.line_width
            == defaults.line_width && reflection.lo == defaults.lo && reflection.ref_level_dbm
            == defaults.ref_level_dbm,
        config.s11.display@ == "vswr"@ ==> reflection.display == TraceDisplay::S11(
            S11Display::Vswr,
        ),
        config.s11.display@ == "smith"@ ==> reflection.display == TraceDisplay::S11(
            S11Display::Smith,
        ),
        config.s11.display@ == "return_loss"@ ==> reflection.display == TraceDisplay::S11(
            S11Display::ReturnLoss,
        ),
        config.s11.display@ == "phase"@ ==> reflection.display == TraceDisplay::S11(
            S11Display::Phase,
        ),
        config.s11.display@ == "impedance"@ ==> reflection.display == TraceDisplay::S11(
            S11Display::Impedance,
        ),
{
    law_projection_names_come_back(TraceDisplay::S11(S11Display::Vswr));
    law_projection_names_come_back(TraceDisplay::S11(S11Display::Smith));
    law_projection_names_come_back(TraceDisplay::S11(S11Display::ReturnLoss));
    law_projection_names_come_back(TraceDisplay::S11(S11Display::Phase));
    law_projection_names_come_back(TraceDisplay::S11(S11Display::Impedance));
}

/// An early file becomes a workspace with one trace of each mode on the grid
/// that it used. The trace that was in use is selected.
pub proof fn law_early_files_become_two_traces(
    config: &AppConfig,
    facts: &LegacyFacts,
    workspace: Workspace,
    grid: (SweepRange, bool),
)
    requires
        facts.store.traces@.len() == 2,
        facts.restore.traces@.len() == 2,
        call_ensures(AppConfig::legacy_workspace, (config, facts), workspace),
        call_ensures(AppConfig::early_grid, (config,), grid),
    ensures
        workspace.range == grid.0 && workspace.log_x == grid.1,
        workspace.sweep_mode is Range,
        workspace.segments@.len() == 0 && workspace.frequencies_hz@.len() == 0,
        workspace.traces@.len() == 2,
        workspace.traces@[0].id == TraceId(1) && workspace.traces@[1].id == TraceId(2),
        workspace.traces@[0].settings.display == facts.defaults.display,
        workspace.traces@[1].settings.display is S11,
        workspace.traces@[0].settings.visible <==> config.mode@ != "s11"@,
        workspace.traces@[1].settings.visible <==> config.mode@ == "s11"@,
        workspace.traces@[0].settings.ref_level_dbm == config.spec.ref_level_dbm,
        workspace.selected == Some(
            if config.mode@ == "s11"@ {
                TraceId(2)
            } else {
                TraceId(1)
            },
        ),
        workspace.next_id == 3,
{
    let (before, stored): (Workspace, WorkspaceConfig) = choose|before: Workspace, stored: WorkspaceConfig|
        {
            &&& config.is_legacy(before, *facts)
            &&& #[trigger] stored.is_stored(before, facts.store)
            &&& stored.is_restored(workspace, facts.restore)
        };
    let traces = stored.traces@;
    assert(traces[0].is_stored(before.traces@[0], facts.store.traces@[0]));
    assert(traces[1].is_stored(before.traces@[1], facts.store.traces@[1]));
    assert(kept_places(traces, 0) =~= seq![]);
    assert(kept_places(traces, 1) =~= seq![0int]);
    assert(!defines(traces, seq![0int], TraceId(2)));
    assert(kept_places(traces, 2) =~= seq![0int, 1int]);
    let places = seq![0int, 1int];
    assert(places.drop_last() =~= seq![0int]);
    assert(seq![0int].drop_last() =~= seq![]);
    assert(next_after(traces, seq![], 1) == 1);
    assert(next_after(traces, seq![0int], 1) == 2);
    assert(next_after(traces, places, 1) == 3);
    assert(places[0] == 0 && places[1] == 1);
    assert(traces[places[0]].is_restored(
        workspace.traces@[0],
        facts.restore.traces@[places[0]],
        stored.restored_x(facts.restore),
    ));
    assert(traces[places[1]].is_restored(
        workspace.traces@[1],
        facts.restore.traces@[places[1]],
        stored.restored_x(facts.restore),
    ));
    assert(defines(traces, places, TraceId(1)));
    assert(defines(traces, places, TraceId(2)));
    law_projection_names_come_back(before.traces@[0].settings.display);
    law_projection_names_come_back(before.traces@[1].settings.display);
}

/// Loaded settings take effect, and nothing that ran goes on: the language, the
/// device, the function and the sources are the stored ones. The connection of a
/// file of the first version becomes a saved device where it names a host and no
/// device is saved. Files before the third version measured in modes, and what
/// they said of them is kept.
pub proof fn law_loaded_settings_take_effect(
    config: &AppConfig,
    state: &mut AppState,
    system: Language,
    facts: &RestoreFacts,
    legacy: &LegacyFacts,
    language: Language,
)
    requires
        facts.traces@.len() == config.workspace.traces@.len(),
        legacy.store.traces@.len() == 2,
        legacy.restore.traces@.len() == 2,
        call_ensures(AppConfig::apply_to, (config, state, system, facts, legacy), ()),
        call_ensures(LanguagePreference::resolve, (config.language, system), language),
    ensures
        final(state).language == language && final(state).language_preference == config.language,
        final(state).target == config.connection,
        final(state).function == config.function,
        final(state).source.config == config.sources && final(state).source.report.state is NotStarted,
        final(state).sweep is Idle && final(state).active_plan is None && final(state).last_recording is None && final(state).run_progress is None,
        final(state).connection == old(state).connection,
        final(state).desktop.settings.theme == config.desktop.theme,
        final(state).desktop.page == old(state).desktop.page,
        config.version >= 2 || config.desktop.profiles@.len() > 0 || config.connection is Serial
            ==> final(state).desktop.settings.profiles@ == config.desktop.profiles@,
        config.version < 2 && config.desktop.profiles@.len() == 0 && config.connection is Tcp
            && text::trimmed(config.connection->host@).len() == 0 ==> final(state).desktop.settings.profiles@.len() == 0,
        config.version < 2 && config.desktop.profiles@.len() == 0 && config.connection is Tcp
            && text::trimmed(config.connection->host@).len() > 0 ==> {
            let profiles = final(state).desktop.settings.profiles@;
            &&& profiles.len() == 1
            &&& profiles[0].name@ == text::trimmed(config.connection->host@)
            &&& profiles[0].target is Tcp && profiles[0].target->host@ == text::trimmed(
                config.connection->host@,
            ) && profiles[0].target->port == config.connection->port
        },
        config.version >= 3 ==> final(state).legacy_sweeps == config.legacy_sweeps && final(state).workspace.range.start_hz == config.workspace.start_hz && final(state).workspace.log_x == config.workspace.log_x,
        config.version < 3 ==> final(state).legacy_sweeps is Some && final(state).legacy_sweeps->0.mode == config.mode && final(state).legacy_sweeps->0.spec == config.spec
            && final(state).legacy_sweeps->0.s11 == config.s11,
        config.version < 3 && config.mode@ == "s11"@ ==> final(state).workspace.range.start_hz
            == config.s11.start_hz,
        config.version < 3 && config.mode@ != "s11"@ ==> final(state).workspace.range.start_hz
            == config.spec.start_hz,
{
}

/// What is stored of a state: its settings under the present version, with the
/// settings of early files at their standard values.
pub proof fn law_states_are_stored(state: &AppState, facts: &StoreFacts, config: AppConfig)
    requires
        facts.traces@.len() == state.workspace.traces@.len(),
        call_ensures(AppConfig::from_state, (state, facts), config),
    ensures
        config.version == 10,
        config.language == state.language_preference,
        config.connection == state.target,
        config.function == state.function,
        config.sources == state.source.config,
        config.legacy_sweeps == state.legacy_sweeps,
        config.desktop.profiles@ == state.desktop.settings.profiles@,
        config.desktop.theme == state.desktop.settings.theme,
        config.mode@ == "spec"@,
        config.workspace.start_hz == state.workspace.range.start_hz && config.workspace.stop_hz
            == state.workspace.range.stop_hz && config.workspace.points
            == state.workspace.range.points,
        config.workspace.selected == state.workspace.selected,
        config.workspace.traces@.len() == state.workspace.traces@.len(),
{
}

/// A program that was never used has no device, speaks the system's language and
/// measures. It writes the present version, and a file that names no version is
/// of the first.
pub proof fn law_standard_settings_are_empty(
    workspace: &Workspace,
    facts: &StoreFacts,
    sources: SourceConfig,
    config: AppConfig,
    version: u32,
)
    requires
        facts.traces@.len() == workspace.traces@.len(),
        call_ensures(AppConfig::standard, (workspace, facts, sources), config),
        call_ensures(legacy_config_version, (), version),
    ensures
        version == 1 && config.version == 10,
        config.language is System && config.desktop.theme is System,
        config.desktop.profiles@.len() == 0,
        config.connection is Tcp && config.connection->host@.len() == 0 && config.connection->port
            == 901,
        config.function is Measurements && config.sources == sources,
        config.legacy_sweeps is None,
        config.mode@ == "spec"@,
        config.spec.start_hz.bits == 0x4197_d784_0000_0000 && config.spec.stop_hz.bits
            == 0x41bd_cd65_0000_0000 && config.spec.points == 201 && config.spec.rbw@ == "10k"@
            && config.spec.ref_level_dbm == -10 && !config.spec.log_x,
        config.s11.start_hz.bits == 0x412e_8480_0000_0000 && config.s11.stop_hz.bits
            == 0x41cd_cd65_0000_0000 && config.s11.points == 201 && config.s11.cal@ == "caloff"@
            && config.s11.display@ == "return_loss"@ && !config.s11.log_x && config.s11.rbw is None,
{
}

/// Settings are kept in the file that the environment names, and without a name
/// in the platform's directory for this program, if it has one.
pub proof fn law_named_files_come_first(
    path: Option<&str>,
    directory: Option<PathBuf>,
    file: Option<ConfigFile>,
    other: Option<ConfigFile>,
    name: (&'static str, &'static str, &'static str),
)
    requires
        call_ensures(choose_file, (path, directory), file),
        call_ensures(config_path_with_override, (path,), other),
        call_ensures(project_name, (), name),
    ensures
        path is Some && path->0@.len() > 0 ==> file is Some && file->0 is Named
            && file->0->Named_0@ == path->0@ && other is Some && other->0 is Named
            && other->0->Named_0@ == path->0@,
        (path is None || path->0@.len() == 0) && directory is Some ==> file == Some(
            ConfigFile::InDirectory(directory->0),
        ),
        (path is None || path->0@.len() == 0) && directory is None ==> file is None,
        path is None || path->0@.len() == 0 ==> other is None || other->0 is InDirectory,
        name.0@ == "io.github"@ && name.1@ == "vowstar"@ && name.2@ == "kcsdi"@,
        ENV_CONFIG_PATH@ == "KCSDI_CONFIG_PATH"@,
        CONFIG_FILE_NAME@ == "config.toml"@,
{
}

} // verus!
