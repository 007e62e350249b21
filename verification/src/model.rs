//! Plain values that stand for what the instrument and its driver handle.

use vstd::prelude::*;

verus! {

/// Receiver of a stream.
#[derive(Debug, Clone, Copy, PartialEq, Eq, Structural)]
pub enum StreamMode {
    S11,
    S21,
    Spec,
}

/// Correction that the instrument applies.
#[derive(Debug, Clone, Copy, PartialEq, Eq, Structural)]
pub enum Cal {
    CalOff,
    CalOn,
    CalSys,
    CalUser,
}

/// Side of the local oscillator.
#[derive(Debug, Clone, Copy, PartialEq, Eq, Structural)]
pub enum Lo {
    HighLo,
    LowLo,
}

/// Resolution bandwidth.
#[derive(Debug, Clone, Copy, PartialEq, Eq, Structural)]
pub struct Rbw {
    pub hz: u32,
}

/// Wire format of a measured row.
#[derive(Debug, Clone, Copy, PartialEq, Eq, Structural)]
pub enum Format {
    Ri,
    Ma,
    Z,
    Loss,
    Vswr,
    Delay,
}

impl Format {
    /// The name that stands on the wire.
    pub open spec fn name(self) -> Seq<char> {
        match self {
            Format::Ri => "ri"@,
            Format::Ma => "ma"@,
            Format::Z => "z"@,
            Format::Loss => "loss"@,
            Format::Vswr => "vswr"@,
            Format::Delay => "delay"@,
        }
    }

    pub fn as_str(self) -> (name: &'static str)
        ensures
            name@ == self.name(),
    {
        match self {
            Format::Ri => "ri",
            Format::Ma => "ma",
            Format::Z => "z",
            Format::Loss => "loss",
            Format::Vswr => "vswr",
            Format::Delay => "delay",
        }
    }
}

#[derive(Debug, Clone, Copy, PartialEq, Eq, Structural)]
pub struct S11Params {
    pub cal: Cal,
    pub format: Format,
    pub points: u32,
    pub start_hz: u64,
    pub stop_hz: u64,
    pub rbw: Option<Rbw>,
}

#[derive(Debug, Clone, Copy, PartialEq, Eq, Structural)]
pub struct S21Params {
    pub cal: Cal,
    pub format: Format,
    pub lo: Lo,
    pub points: u32,
    pub start_hz: u64,
    pub stop_hz: u64,
    pub rbw: Option<Rbw>,
}

#[derive(Debug, Clone, Copy, PartialEq, Eq, Structural)]
pub struct SpecParams {
    pub cal: Cal,
    pub lo: Lo,
    pub points: u32,
    pub start_hz: u64,
    pub stop_hz: u64,
    pub rbw: Rbw,
    pub ref_level_dbm: i32,
}

/// Receiver conditions of a single point.
#[allow(inconsistent_fields)]
#[derive(Debug, Clone, Copy, PartialEq, Eq, Structural)]
pub enum PointSettings {
    S11 { cal: Cal, format: Format, rbw: Option<Rbw> },
    S21 { cal: Cal, format: Format, lo: Lo, rbw: Option<Rbw> },
    Spec { cal: Cal, lo: Lo, rbw: Rbw, ref_level_dbm: i32 },
}

impl PointSettings {
    pub open spec fn spec_mode(self) -> StreamMode {
        match self {
            PointSettings::S11 { .. } => StreamMode::S11,
            PointSettings::S21 { .. } => StreamMode::S21,
            PointSettings::Spec { .. } => StreamMode::Spec,
        }
    }

    /// The wire format's name. A spectrum has none.
    pub open spec fn spec_format(self) -> Seq<char> {
        match self {
            PointSettings::S11 { format, .. } => format.name(),
            PointSettings::S21 { format, .. } => format.name(),
            PointSettings::Spec { .. } => ""@,
        }
    }

    pub open spec fn spec_rbw(self) -> Option<Rbw> {
        match self {
            PointSettings::S11 { rbw, .. } => rbw,
            PointSettings::S21 { rbw, .. } => rbw,
            PointSettings::Spec { rbw, .. } => Some(rbw),
        }
    }

    pub fn mode(&self) -> (mode: StreamMode)
        ensures
            mode == self.spec_mode(),
    {
        match self {
            PointSettings::S11 { .. } => StreamMode::S11,
            PointSettings::S21 { .. } => StreamMode::S21,
            PointSettings::Spec { .. } => StreamMode::Spec,
        }
    }

    pub fn format(&self) -> (format: &'static str)
        ensures
            format@ == self.spec_format(),
    {
        match self {
            PointSettings::S11 { format, .. } => format.as_str(),
            PointSettings::S21 { format, .. } => format.as_str(),
            PointSettings::Spec { .. } => "",
        }
    }

    pub fn rbw(&self) -> (rbw: Option<Rbw>)
        ensures
            rbw == self.spec_rbw(),
    {
        match self {
            PointSettings::S11 { rbw, .. } => *rbw,
            PointSettings::S21 { rbw, .. } => *rbw,
            PointSettings::Spec { rbw, .. } => Some(*rbw),
        }
    }
}

/// One span of a segmented sweep.
#[derive(Debug, Clone, Copy, PartialEq, Eq, Structural)]
pub struct Segment {
    pub start_hz: u64,
    pub stop_hz: u64,
    pub points: u32,
}

/// Most segments that one definition can hold.
pub const MAX_SEGMENTS: usize = 32;

/// Spans that are measured one after the other under the same conditions.
///
/// `acquired_points` is the driver's count of the samples that all spans
/// yield. Every span yields at least one.
#[derive(Debug, PartialEq, Eq)]
pub struct SegmentPlan {
    settings: PointSettings,
    segments: Vec<Segment>,
    acquired_points: u32,
}

impl SegmentPlan {
    #[verifier::type_invariant]
    spec fn counts(self) -> bool {
        self.segments@.len() <= self.acquired_points
    }

    pub closed spec fn spec_settings(self) -> PointSettings {
        self.settings
    }

    pub closed spec fn spec_segments(self) -> Seq<Segment> {
        self.segments@
    }

    pub closed spec fn spec_acquired(self) -> u32 {
        self.acquired_points
    }

    /// A plan, unless fewer samples than spans are announced.
    pub fn new(settings: PointSettings, segments: Vec<Segment>, acquired_points: u32) -> (plan:
        Option<Self>)
        ensures
            plan is Some <==> segments@.len() <= acquired_points,
            plan matches Some(p) ==> p.spec_settings() == settings && p.spec_segments()
                == segments@ && p.spec_acquired() == acquired_points,
    {
        if segments.len() as u64 > acquired_points as u64 {
            return None;
        }
        Some(SegmentPlan { settings, segments, acquired_points })
    }

    pub fn settings(&self) -> (settings: &PointSettings)
        ensures
            *settings == self.spec_settings(),
    {
        &self.settings
    }

    pub fn segments(&self) -> (segments: &Vec<Segment>)
        ensures
            segments@ == self.spec_segments(),
    {
        &self.segments
    }

    /// The driver's count, which is never below the number of spans.
    pub fn acquired_points(&self) -> (points: u32)
        ensures
            points == self.spec_acquired(),
            self.spec_segments().len() <= points,
    {
        proof {
            use_type_invariant(self);
        }
        self.acquired_points
    }
}

impl Clone for SegmentPlan {
    fn clone(&self) -> (copy: Self)
        ensures
            copy.spec_settings() == self.spec_settings(),
            copy.spec_segments() == self.spec_segments(),
            copy.spec_acquired() == self.spec_acquired(),
    {
        proof {
            use_type_invariant(self);
        }
        let segments = self.segments.clone();
        assert(segments@ =~= self.segments@);
        SegmentPlan { settings: self.settings, segments, acquired_points: self.acquired_points }
    }
}

/// Why a parameter is refused.
#[derive(Debug, PartialEq, Eq)]
pub enum Reason {
    FrequencyList,
    Bandwidth,
    TraceId,
    TraceLimit,
    VisibleTraces,
    Group,
    Membership,
    /// A reason that the driver or another part of the program words.
    Other(String),
}

impl Reason {
    pub open spec fn words(self) -> Seq<char> {
        match self {
            Reason::FrequencyList => "frequency lists require 3 to 1001 ascending entries"@,
            Reason::Bandwidth => "workspace sweeps require an explicit bandwidth"@,
            Reason::TraceId => "invalid or repeated trace ID"@,
            Reason::TraceLimit => "a workspace supports at most 10 traces"@,
            Reason::VisibleTraces => "select between 1 and 10 visible traces"@,
            Reason::Group => "empty or repeated acquisition group"@,
            Reason::Membership => "invalid workspace trace membership"@,
            Reason::Other(words) => words@,
        }
    }

    pub fn text(&self) -> (text: String)
        ensures
            text@ == self.words(),
    {
        match self {
            Reason::FrequencyList => "frequency lists require 3 to 1001 ascending entries".to_owned(),
            Reason::Bandwidth => "workspace sweeps require an explicit bandwidth".to_owned(),
            Reason::TraceId => "invalid or repeated trace ID".to_owned(),
            Reason::TraceLimit => "a workspace supports at most 10 traces".to_owned(),
            Reason::VisibleTraces => "select between 1 and 10 visible traces".to_owned(),
            Reason::Group => "empty or repeated acquisition group".to_owned(),
            Reason::Membership => "invalid workspace trace membership".to_owned(),
            Reason::Other(words) => words.clone(),
        }
    }
}

impl Clone for Reason {
    fn clone(&self) -> (copy: Self)
        ensures
            copy == *self,
    {
        match self {
            Reason::FrequencyList => Reason::FrequencyList,
            Reason::Bandwidth => Reason::Bandwidth,
            Reason::TraceId => Reason::TraceId,
            Reason::TraceLimit => Reason::TraceLimit,
            Reason::VisibleTraces => Reason::VisibleTraces,
            Reason::Group => Reason::Group,
            Reason::Membership => Reason::Membership,
            Reason::Other(words) => Reason::Other(words.clone()),
        }
    }
}

/// Failures of an instrument operation.
#[derive(Debug, PartialEq, Eq)]
pub enum DeviceError {
    Io(String),
    NotConnected,
    Timeout,
    Protocol(String),
    Cancelled,
    Device(String),
    InvalidParameter(Reason),
    /// A running source has to be stopped before a sweep.
    SourceActive,
    DeviceBusy(String),
}

impl DeviceError {
    /// The detail that an error carries, without the driver's framing.
    pub open spec fn words(self) -> Seq<char> {
        match self {
            DeviceError::Io(detail) => detail@,
            DeviceError::Protocol(detail) => detail@,
            DeviceError::Device(detail) => detail@,
            DeviceError::DeviceBusy(detail) => detail@,
            DeviceError::InvalidParameter(reason) => reason.words(),
            DeviceError::SourceActive => "stop the source before starting a sweep"@,
            DeviceError::NotConnected | DeviceError::Timeout | DeviceError::Cancelled => ""@,
        }
    }

    pub fn detail(&self) -> (text: String)
        ensures
            text@ == self.words(),
    {
        match self {
            DeviceError::Io(detail) => detail.clone(),
            DeviceError::Protocol(detail) => detail.clone(),
            DeviceError::Device(detail) => detail.clone(),
            DeviceError::DeviceBusy(detail) => detail.clone(),
            DeviceError::InvalidParameter(reason) => reason.text(),
            DeviceError::SourceActive => "stop the source before starting a sweep".to_owned(),
            DeviceError::NotConnected | DeviceError::Timeout | DeviceError::Cancelled => {
                "".to_owned()
            },
        }
    }
}

impl Clone for DeviceError {
    fn clone(&self) -> (copy: Self)
        ensures
            copy == *self,
    {
        match self {
            DeviceError::Io(detail) => DeviceError::Io(detail.clone()),
            DeviceError::NotConnected => DeviceError::NotConnected,
            DeviceError::Timeout => DeviceError::Timeout,
            DeviceError::Protocol(detail) => DeviceError::Protocol(detail.clone()),
            DeviceError::Cancelled => DeviceError::Cancelled,
            DeviceError::Device(detail) => DeviceError::Device(detail.clone()),
            DeviceError::InvalidParameter(reason) => DeviceError::InvalidParameter(reason.clone()),
            DeviceError::SourceActive => DeviceError::SourceActive,
            DeviceError::DeviceBusy(detail) => DeviceError::DeviceBusy(detail.clone()),
        }
    }
}

/// A floating-point reading, by its IEEE 754 double-precision bits.
#[derive(Debug, Clone, Copy, PartialEq, Eq, Structural)]
pub struct Real {
    pub bits: u64,
}

impl Real {
    /// A quiet NaN.
    pub open spec fn nan() -> Real {
        Real { bits: 0x7ff8_0000_0000_0000 }
    }

    /// The bits without the sign.
    pub open spec fn magnitude(self) -> int {
        if self.bits >= 0x8000_0000_0000_0000 {
            self.bits - 0x8000_0000_0000_0000
        } else {
            self.bits as int
        }
    }

    /// Whether this is not a number.
    pub open spec fn is_nan(self) -> bool {
        self.magnitude() > 0x7ff0_0000_0000_0000
    }

    pub open spec fn finite(self) -> bool {
        self.magnitude() < 0x7ff0_0000_0000_0000
    }

    /// An integer that orders numbers as their values do. Both zeros have the
    /// same.
    pub open spec fn rank(self) -> int {
        if self.bits >= 0x8000_0000_0000_0000 {
            -self.magnitude()
        } else {
            self.magnitude()
        }
    }

    /// Whether both are numbers and this one is smaller.
    pub open spec fn below(self, other: Real) -> bool {
        !self.is_nan() && !other.is_nan() && self.rank() < other.rank()
    }

    /// Whether both are the same number.
    pub open spec fn equals(self, other: Real) -> bool {
        !self.is_nan() && !other.is_nan() && self.rank() == other.rank()
    }

    pub fn is_finite(self) -> (finite: bool)
        ensures
            finite == self.finite(),
    {
        if self.bits >= 0x8000_0000_0000_0000 {
            self.bits - 0x8000_0000_0000_0000 < 0x7ff0_0000_0000_0000
        } else {
            self.bits < 0x7ff0_0000_0000_0000
        }
    }

    fn unordered(self) -> (nan: bool)
        ensures
            nan == self.is_nan(),
    {
        if self.bits >= 0x8000_0000_0000_0000 {
            self.bits - 0x8000_0000_0000_0000 > 0x7ff0_0000_0000_0000
        } else {
            self.bits > 0x7ff0_0000_0000_0000
        }
    }

    /// Whether this number is smaller.
    pub fn less(self, other: Real) -> (less: bool)
        ensures
            less == self.below(other),
    {
        if self.unordered() || other.unordered() {
            return false;
        }
        let negative = self.bits >= 0x8000_0000_0000_0000;
        let other_negative = other.bits >= 0x8000_0000_0000_0000;
        if negative && other_negative {
            self.bits > other.bits
        } else if negative {
            self.bits != 0x8000_0000_0000_0000 || other.bits != 0
        } else if other_negative {
            false
        } else {
            self.bits < other.bits
        }
    }

    /// Whether both are the same number.
    pub fn same(self, other: Real) -> (same: bool)
        ensures
            same == self.equals(other),
    {
        if self.unordered() || other.unordered() {
            return false;
        }
        self.bits == other.bits || (self.bits == 0 && other.bits == 0x8000_0000_0000_0000) || (
        self.bits == 0x8000_0000_0000_0000 && other.bits == 0)
    }
}

/// One measured row.
#[derive(Debug, PartialEq, Eq)]
pub struct SweepPoint {
    pub freq_hz: Real,
    pub values: Vec<Real>,
}

/// Rows as the instrument reported them.
#[derive(Debug, PartialEq, Eq)]
pub struct SweepData {
    pub mode: StreamMode,
    pub format: String,
    pub points: Vec<SweepPoint>,
}

/// What a [`SweepPoint`] stands for.
#[verifier::ext_equal]
pub struct PointModel {
    pub freq_hz: Real,
    pub values: Seq<Real>,
}

/// What [`SweepData`] stands for.
#[verifier::ext_equal]
pub struct DataModel {
    pub mode: StreamMode,
    pub format: Seq<char>,
    pub points: Seq<PointModel>,
}

impl View for SweepPoint {
    type V = PointModel;

    open spec fn view(&self) -> PointModel {
        PointModel { freq_hz: self.freq_hz, values: self.values@ }
    }
}

impl View for SweepData {
    type V = DataModel;

    open spec fn view(&self) -> DataModel {
        DataModel {
            mode: self.mode,
            format: self.format@,
            points: self.points@.map_values(|point: SweepPoint| point@),
        }
    }
}

/// The same entries in the same order.
pub fn copied<T: Copy>(values: &Vec<T>) -> (copy: Vec<T>)
    ensures
        copy@ == values@,
{
    let mut copy: Vec<T> = Vec::new();
    let mut index: usize = 0;
    while index < values.len()
        invariant
            index <= values@.len(),
            copy@ == values@.take(index as int),
        decreases values@.len() - index,
    {
        copy.push(values[index]);
        index = index + 1;
        assert(values@.take(index as int) =~= values@.take(index - 1).push(values@[index - 1]));
    }
    assert(values@.take(values@.len() as int) =~= values@);
    copy
}

/// What the driver knows of the spans behind a segmented sweep's rows.
///
/// `consistent` is the driver's own verdict on this record against the plan
/// and the rows that it came with.
#[derive(Debug, Clone, Copy, PartialEq, Eq, Structural)]
pub struct SegmentMetadata {
    pub consistent: bool,
}

/// Which quantity a calibration corrects, and over which range.
#[derive(Debug, Clone, Copy, PartialEq, Eq, Structural)]
pub enum CalibrationKind {
    S11System,
    S21System,
    S11User,
    S21User,
}

impl CalibrationKind {
    pub open spec fn spec_is_user(self) -> bool {
        self is S11User || self is S21User
    }

    pub open spec fn spec_mode(self) -> StreamMode {
        if self is S11System || self is S11User {
            StreamMode::S11
        } else {
            StreamMode::S21
        }
    }

    /// Whether the range is the user's own.
    pub fn is_user(self) -> (user: bool)
        ensures
            user == self.spec_is_user(),
    {
        matches!(self, CalibrationKind::S11User | CalibrationKind::S21User)
    }

    pub fn mode(self) -> (mode: StreamMode)
        ensures
            mode == self.spec_mode(),
    {
        match self {
            CalibrationKind::S11System | CalibrationKind::S11User => StreamMode::S11,
            CalibrationKind::S21System | CalibrationKind::S21User => StreamMode::S21,
        }
    }
}

/// A standard that the user has to connect.
#[derive(Debug, Clone, Copy, PartialEq, Eq, Structural)]
pub enum CalibrationPrompt {
    Short,
    Open,
    Load,
    Through,
}

#[derive(Debug, Clone, Copy, PartialEq, Eq, Structural)]
pub enum CalibrationPhase {
    NotStarted,
    AwaitingConfirmation,
    WarmingUp,
    Prompt(CalibrationPrompt),
    Measuring,
    Processing,
    Saving,
    Completed,
    Cancelled,
    Unknown,
}

#[derive(Debug, Clone, Copy, PartialEq, Eq, Structural)]
pub struct CalibrationReport {
    pub kind: Option<CalibrationKind>,
    pub phase: CalibrationPhase,
}

impl CalibrationReport {
    /// Whether the procedure has begun and has not ended.
    pub open spec fn active(self) -> bool {
        !(self.phase is NotStarted || self.phase is Completed || self.phase is Cancelled
            || self.phase is Unknown)
    }

    pub fn is_active(&self) -> (active: bool)
        ensures
            active == self.active(),
    {
        match self.phase {
            CalibrationPhase::NotStarted
            | CalibrationPhase::Completed
            | CalibrationPhase::Cancelled
            | CalibrationPhase::Unknown => false,
            _ => true,
        }
    }
}

impl Default for CalibrationReport {
    fn default() -> (report: Self)
        ensures
            report == (CalibrationReport { kind: None, phase: CalibrationPhase::NotStarted }),
    {
        CalibrationReport { kind: None, phase: CalibrationPhase::NotStarted }
    }
}

/// A user's calibration range, as the instrument takes it.
#[derive(Debug, Clone, Copy, PartialEq, Eq, Structural)]
pub struct UserCalibrationParams {
    pub center_hz: u64,
    pub span_hz: u64,
    pub points: u32,
    pub rbw: Rbw,
}

#[derive(Debug, Clone, Copy, PartialEq, Eq, Structural)]
pub enum CalibrationParams {
    S11System,
    S21System,
    S11User(UserCalibrationParams),
    S21User(UserCalibrationParams),
}

impl CalibrationParams {
    pub open spec fn spec_kind(self) -> CalibrationKind {
        match self {
            CalibrationParams::S11System => CalibrationKind::S11System,
            CalibrationParams::S21System => CalibrationKind::S21System,
            CalibrationParams::S11User(_) => CalibrationKind::S11User,
            CalibrationParams::S21User(_) => CalibrationKind::S21User,
        }
    }

    pub fn kind(&self) -> (kind: CalibrationKind)
        ensures
            kind == self.spec_kind(),
    {
        match self {
            CalibrationParams::S11System => CalibrationKind::S11System,
            CalibrationParams::S21System => CalibrationKind::S21System,
            CalibrationParams::S11User(_) => CalibrationKind::S11User,
            CalibrationParams::S21User(_) => CalibrationKind::S21User,
        }
    }
}

#[derive(Debug, Clone, Copy, PartialEq, Eq, Structural)]
pub enum SourceKind {
    Rf,
    Af,
}

/// Output connector of a source, by name or by the driver's code.
#[derive(Debug, Clone, Copy, PartialEq, Eq, Structural)]
pub enum SourcePort {
    Port1,
    AfOut,
    Coded(u8),
}

#[derive(Debug, Clone, Copy, PartialEq, Eq, Structural)]
pub enum SourceAmplitude {
    Dbm(i32),
    Coded(i32),
}

#[derive(Debug, Clone, Copy, PartialEq, Eq, Structural)]
pub enum Modulation {
    Off,
    Coded { kind: u8, depth: u32, frequency_hz: u32 },
}

#[derive(Debug, Clone, Copy, PartialEq, Eq, Structural)]
pub struct SourceParams {
    pub kind: SourceKind,
    pub port: SourcePort,
    pub frequency_hz: u64,
    pub amplitude: SourceAmplitude,
    pub modulation: Modulation,
}

#[derive(Debug, Clone, Copy, PartialEq, Eq, Structural)]
pub enum SourceOutputState {
    NotStarted,
    Requested(SourceKind),
    StopSent,
    Unknown,
}

#[derive(Debug, Clone, Copy, PartialEq, Eq, Structural)]
pub enum SourceWarning {
    AboveMaximum,
    BelowMinimum,
}

#[derive(Debug, Clone, Copy, PartialEq, Eq, Structural)]
pub struct SourceReport {
    pub state: SourceOutputState,
    pub warning: Option<SourceWarning>,
}

impl SourceReport {
    /// Whether output was asked for and not stopped since.
    pub open spec fn requested(self) -> bool {
        self.state is Requested
    }

    /// Whether output may be on.
    pub open spec fn possible(self) -> bool {
        self.state is Requested || self.state is Unknown
    }

    pub fn is_requested(&self) -> (requested: bool)
        ensures
            requested == self.requested(),
    {
        matches!(self.state, SourceOutputState::Requested(_))
    }

    pub fn is_possible(&self) -> (possible: bool)
        ensures
            possible == self.possible(),
    {
        matches!(self.state, SourceOutputState::Requested(_) | SourceOutputState::Unknown)
    }
}

/// What an open instrument reports of itself.
#[derive(Debug, Clone, Copy, PartialEq, Eq, Structural)]
pub struct DeviceStatus {
    pub calibration: CalibrationReport,
    pub source: SourceReport,
    pub requires_reconnect: bool,
}

#[derive(Debug, PartialEq, Eq)]
pub struct DeviceInfo {
    pub serial: String,
    pub username: String,
    pub software: String,
    pub hardware: String,
    pub copyright: String,
}

/// One pair of temperature and voltage readings.
#[derive(Debug, Clone, Copy, PartialEq, Eq, Structural)]
pub struct HealthSnapshot {
    pub temperature: Real,
    pub external: Real,
    pub battery: Real,
    /// Nanoseconds of the monotonic clock when the query began.
    pub observed_at: u128,
}

/// Where an instrument is reached.
#[derive(Debug, PartialEq, Eq)]
pub enum ConnectionTarget {
    Tcp { host: String, port: u16 },
    Serial { path: String },
}

impl ConnectionTarget {
    /// Whether both name the same place.
    pub open spec fn same_as(self, other: Self) -> bool {
        match (self, other) {
            (
                ConnectionTarget::Tcp { host: a, port: p },
                ConnectionTarget::Tcp { host: b, port: q },
            ) => a@ == b@ && p == q,
            (ConnectionTarget::Serial { path: a }, ConnectionTarget::Serial { path: b }) => a@
                == b@,
            _ => false,
        }
    }

    pub fn same(&self, other: &Self) -> (same: bool)
        ensures
            same == self.same_as(*other),
    {
        match (self, other) {
            (
                ConnectionTarget::Tcp { host: a, port: p },
                ConnectionTarget::Tcp { host: b, port: q },
            ) => *a == *b && *p == *q,
            (ConnectionTarget::Serial { path: a }, ConnectionTarget::Serial { path: b }) => *a == *b,
            _ => false,
        }
    }
}

/// Port that the instrument listens on unless it is set up otherwise.
pub const DEFAULT_PORT: u16 = 901;

impl Default for ConnectionTarget {
    fn default() -> (target: Self)
        ensures
            target matches ConnectionTarget::Tcp { host, port } && host@.len() == 0 && port
                == DEFAULT_PORT,
    {
        ConnectionTarget::Tcp { host: String::new(), port: DEFAULT_PORT }
    }
}

impl Clone for ConnectionTarget {
    fn clone(&self) -> (copy: Self)
        ensures
            copy == *self,
    {
        match self {
            ConnectionTarget::Tcp { host, port } => ConnectionTarget::Tcp {
                host: host.clone(),
                port: *port,
            },
            ConnectionTarget::Serial { path } => ConnectionTarget::Serial { path: path.clone() },
        }
    }
}

/// Every wire format has a name of its own, which stands on the wire.
pub proof fn law_formats_have_names(
    format: Format,
    other: Format,
    name: &'static str,
    second: &'static str,
)
    requires
        call_ensures(Format::as_str, (format,), name),
        call_ensures(Format::as_str, (other,), second),
    ensures
        format != other ==> name@ != second@,
        format is Ri <==> name@ == "ri"@,
        format is Ma <==> name@ == "ma"@,
        format is Z <==> name@ == "z"@,
        format is Loss <==> name@ == "loss"@,
        format is Vswr <==> name@ == "vswr"@,
        format is Delay <==> name@ == "delay"@,
{
    reveal_strlit("ri");
    reveal_strlit("ma");
    reveal_strlit("z");
    reveal_strlit("loss");
    reveal_strlit("vswr");
    reveal_strlit("delay");
    assert("ri"@[0] == 'r' && "ma"@[0] == 'm' && "z"@[0] == 'z');
    assert("loss"@[0] == 'l' && "vswr"@[0] == 'v' && "delay"@[0] == 'd');
}

/// The conditions of a single point name their own receiver, format and
/// bandwidth. A spectrum has no format, and always a bandwidth.
pub proof fn law_points_name_their_receiver(
    settings: &PointSettings,
    mode: StreamMode,
    format: &'static str,
    rbw: Option<Rbw>,
    name: &'static str,
)
    requires
        call_ensures(PointSettings::mode, (settings,), mode),
        call_ensures(PointSettings::format, (settings,), format),
        call_ensures(PointSettings::rbw, (settings,), rbw),
        *settings is S11 ==> call_ensures(Format::as_str, (settings->S11_format,), name),
        *settings is S21 ==> call_ensures(Format::as_str, (settings->S21_format,), name),
    ensures
        mode is S11 <==> *settings is S11,
        mode is S21 <==> *settings is S21,
        mode is Spec <==> *settings is Spec,
        *settings is Spec <==> format@ == ""@,
        !(*settings is Spec) ==> format@ == name@,
        *settings is S11 ==> rbw == settings->S11_rbw,
        *settings is S21 ==> rbw == settings->S21_rbw,
        *settings is Spec ==> rbw == Some(settings->Spec_rbw),
{
    reveal_strlit("");
    reveal_strlit("ri");
    reveal_strlit("ma");
    reveal_strlit("z");
    reveal_strlit("loss");
    reveal_strlit("vswr");
    reveal_strlit("delay");
    assert(""@.len() == 0 && "ri"@.len() > 0 && "ma"@.len() > 0 && "z"@.len() > 0);
    assert("loss"@.len() > 0 && "vswr"@.len() > 0 && "delay"@.len() > 0);
}

/// Numbers are ordered as IEEE 754 has it: by their bits where both are
/// positive, the other way round where both are negative, negative ones before
/// positive ones, and both zeros as one. What is no number is neither smaller
/// nor the same. Infinities are numbers, but not finite.
pub proof fn law_numbers_are_ordered(a: Real, b: Real, less: bool, same: bool, finite: bool)
    requires
        call_ensures(Real::less, (a, b), less),
        call_ensures(Real::same, (a, b), same),
        call_ensures(Real::is_finite, (a,), finite),
    ensures
        a.bits <= 0x7ff0_0000_0000_0000 && b.bits <= 0x7ff0_0000_0000_0000 ==> (less <==> a.bits
            < b.bits) && (same <==> a.bits == b.bits),
        0x8000_0000_0000_0000 <= a.bits <= 0xfff0_0000_0000_0000 && 0x8000_0000_0000_0000 <= b.bits
            <= 0xfff0_0000_0000_0000 ==> (less <==> a.bits > b.bits) && (same <==> a.bits
            == b.bits),
        0x8000_0000_0000_0000 < a.bits <= 0xfff0_0000_0000_0000 && b.bits <= 0x7ff0_0000_0000_0000
            ==> less && !same,
        a.bits <= 0x7ff0_0000_0000_0000 && 0x8000_0000_0000_0000 < b.bits
            <= 0xfff0_0000_0000_0000 ==> !less && !same,
        a.bits == 0 && b.bits == 0x8000_0000_0000_0000 ==> same && !less,
        a.bits == 0x8000_0000_0000_0000 && b.bits == 0 ==> same && !less,
        0x7ff0_0000_0000_0000 < a.bits < 0x8000_0000_0000_0000 || a.bits > 0xfff0_0000_0000_0000
            ==> !less && !same,
        0x7ff0_0000_0000_0000 < b.bits < 0x8000_0000_0000_0000 || b.bits > 0xfff0_0000_0000_0000
            ==> !less && !same,
        finite <==> a.bits < 0x7ff0_0000_0000_0000 || 0x8000_0000_0000_0000 <= a.bits
            < 0xfff0_0000_0000_0000,
{
}

/// A calibration is under way from the moment it is confirmed until it ends.
pub proof fn law_calibrations_are_active_until_they_end(report: &CalibrationReport, active: bool)
    requires
        call_ensures(CalibrationReport::is_active, (report,), active),
    ensures
        active <==> report.phase is AwaitingConfirmation || report.phase is WarmingUp
            || report.phase is Prompt || report.phase is Measuring || report.phase is Processing
            || report.phase is Saving,
{
}

/// What is calibrated is of the kind that its parameters say, and has a range of
/// its own exactly where it is a user's.
pub proof fn law_parameters_are_of_their_kind(
    params: &CalibrationParams,
    kind: CalibrationKind,
    user: bool,
    mode: StreamMode,
)
    requires
        call_ensures(CalibrationParams::kind, (params,), kind),
        call_ensures(CalibrationKind::is_user, (kind,), user),
        call_ensures(CalibrationKind::mode, (kind,), mode),
    ensures
        kind is S11System <==> *params is S11System,
        kind is S21System <==> *params is S21System,
        kind is S11User <==> *params is S11User,
        kind is S21User <==> *params is S21User,
        user <==> *params is S11User || *params is S21User,
        mode is S11 <==> *params is S11System || *params is S11User,
        mode is S21 <==> *params is S21System || *params is S21User,
{
}

/// Output may be on where it was asked for and not stopped, or where nobody
/// knows.
pub proof fn law_output_is_possible_until_stopped(
    report: &SourceReport,
    requested: bool,
    possible: bool,
)
    requires
        call_ensures(SourceReport::is_requested, (report,), requested),
        call_ensures(SourceReport::is_possible, (report,), possible),
    ensures
        requested <==> report.state is Requested,
        requested ==> possible,
        !possible <==> report.state is NotStarted || report.state is StopSent,
{
}

/// Two targets are the same where they are of one kind and every part of them
/// agrees.
pub proof fn law_targets_agree_in_every_part(
    a: &ConnectionTarget,
    b: &ConnectionTarget,
    same: bool,
    swapped: bool,
)
    requires
        call_ensures(ConnectionTarget::same, (a, b), same),
        call_ensures(ConnectionTarget::same, (b, a), swapped),
    ensures
        same == swapped,
        *a == *b ==> same,
        same ==> (*a is Tcp <==> *b is Tcp),
        *a is Tcp && *b is Tcp ==> (same <==> a->host@ == b->host@ && a->port == b->port),
        *a is Serial && *b is Serial ==> (same <==> a->path@ == b->path@),
{
}

/// Why a request is refused is said in words of its own, and what the driver or
/// another part says is passed on.
pub proof fn law_reasons_are_worded(reason: &Reason, text: String)
    requires
        call_ensures(Reason::text, (reason,), text),
    ensures
        *reason is FrequencyList ==> text@ == "frequency lists require 3 to 1001 ascending entries"@,
        *reason is Bandwidth ==> text@ == "workspace sweeps require an explicit bandwidth"@,
        *reason is TraceId ==> text@ == "invalid or repeated trace ID"@,
        *reason is TraceLimit ==> text@ == "a workspace supports at most 10 traces"@,
        *reason is VisibleTraces ==> text@ == "select between 1 and 10 visible traces"@,
        *reason is Group ==> text@ == "empty or repeated acquisition group"@,
        *reason is Membership ==> text@ == "invalid workspace trace membership"@,
        *reason matches Reason::Other(words) ==> text@ == words@,
{
}

/// A failure tells what it knows: the words of the link, of the instrument or of
/// the refused parameter.
pub proof fn law_failures_tell_what_they_know(error: &DeviceError, text: String, reason: String)
    requires
        call_ensures(DeviceError::detail, (error,), text),
        *error is InvalidParameter ==> call_ensures(
            Reason::text,
            (&error->InvalidParameter_0,),
            reason,
        ),
    ensures
        *error matches DeviceError::Io(words) ==> text@ == words@,
        *error matches DeviceError::Protocol(words) ==> text@ == words@,
        *error matches DeviceError::Device(words) ==> text@ == words@,
        *error matches DeviceError::DeviceBusy(words) ==> text@ == words@,
        *error is InvalidParameter ==> text@ == reason@,
        *error is SourceActive ==> text@ == "stop the source before starting a sweep"@,
        *error is NotConnected || *error is Timeout || *error is Cancelled ==> text@ == ""@,
{
}

/// A plan of segments keeps what it was made of, and announces a sample for each
/// segment at least.
pub proof fn law_segment_plans_keep_their_parts(
    settings: PointSettings,
    segments: Vec<Segment>,
    points: u32,
    plan: Option<SegmentPlan>,
)
    requires
        call_ensures(SegmentPlan::new, (settings, segments, points), plan),
    ensures
        plan is Some <==> segments@.len() <= points,
        plan matches Some(plan) ==> plan.spec_settings() == settings && plan.spec_segments()
            == segments@ && plan.spec_acquired() == points,
{
}

/// A plan gives back what it was made of.
pub proof fn law_segment_plans_give_back_their_parts(
    settings: PointSettings,
    segments: Vec<Segment>,
    points: u32,
    plan: SegmentPlan,
    own_settings: &PointSettings,
    own_segments: &Vec<Segment>,
    own_points: u32,
)
    requires
        call_ensures(SegmentPlan::new, (settings, segments, points), Some(plan)),
        call_ensures(SegmentPlan::settings, (&plan,), own_settings),
        call_ensures(SegmentPlan::segments, (&plan,), own_segments),
        call_ensures(SegmentPlan::acquired_points, (&plan,), own_points),
    ensures
        *own_settings == settings,
        own_segments@ == segments@,
        own_points == points,
{
}

/// A copy of a list has the same elements in the same order.
pub proof fn law_copies_are_equal<T: Copy>(values: &Vec<T>, copy: Vec<T>, i: int)
    requires
        call_ensures(copied::<T>, (values,), copy),
    ensures
        copy@.len() == values@.len(),
        0 <= i < values@.len() ==> copy@[i] == values@[i],
{
}

/// A target that nobody chose is on the network without a host, at port 901, and
/// a calibration that nobody started is of no kind.
pub proof fn law_unchosen_values_are_empty(target: ConnectionTarget, report: CalibrationReport)
    requires
        call_ensures(ConnectionTarget::default, (), target),
        call_ensures(CalibrationReport::default, (), report),
    ensures
        target is Tcp && target->host@.len() == 0 && target->port == 901,
        report.kind is None && report.phase is NotStarted,
{
}

} // verus!
