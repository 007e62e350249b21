//! Immutable workspace acquisition requests and completed measurements.

use std::sync::Arc;
use vstd::prelude::*;

use crate::model::{
    copied, DeviceError, PointSettings, Reason, Rbw, S11Params, S21Params, Segment,
    SegmentMetadata, SegmentPlan, SpecParams, StreamMode, SweepData,
};
use crate::text::same_text;

verus! {

/// Most traces that one workspace holds.
pub const MAX_TRACES: usize = 10;

/// Fewest entries of a frequency list.
pub const MIN_LIST_POINTS: usize = 3;

/// Most entries of a frequency list.
pub const MAX_LIST_POINTS: usize = 1001;

/// Stable identity, independent of a trace's current list position.
#[derive(Debug, Clone, Copy, PartialEq, Eq, Hash, Structural)]
pub struct TraceId(pub u64);

/// Actual wire settings, without display scale, style or projection.
#[derive(Debug, PartialEq, Eq)]
pub enum AcquisitionSettings {
    S11(S11Params),
    S21(S21Params),
    Spec(SpecParams),
    Segments(SegmentPlan),
    List { settings: PointSettings, frequencies_hz: Vec<u64> },
}

/// The conditions that [`AcquisitionSettings`] stand for.
#[verifier::ext_equal]
pub enum SettingsModel {
    S11(S11Params),
    S21(S21Params),
    Spec(SpecParams),
    Segments { settings: PointSettings, segments: Seq<Segment>, acquired: u32 },
    List { settings: PointSettings, frequencies_hz: Seq<u64> },
}

impl View for AcquisitionSettings {
    type V = SettingsModel;

    open spec fn view(&self) -> SettingsModel {
        match *self {
            AcquisitionSettings::S11(params) => SettingsModel::S11(params),
            AcquisitionSettings::S21(params) => SettingsModel::S21(params),
            AcquisitionSettings::Spec(params) => SettingsModel::Spec(params),
            AcquisitionSettings::Segments(plan) => SettingsModel::Segments {
                settings: plan.spec_settings(),
                segments: plan.spec_segments(),
                acquired: plan.spec_acquired(),
            },
            AcquisitionSettings::List { settings, frequencies_hz } => SettingsModel::List {
                settings,
                frequencies_hz: frequencies_hz@,
            },
        }
    }
}

/// Whether a list has an accepted length and never steps down.
pub open spec fn ascending_list(frequencies_hz: Seq<u64>) -> bool {
    &&& MIN_LIST_POINTS <= frequencies_hz.len() <= MAX_LIST_POINTS
    &&& forall|i: int, j: int|
        0 <= i <= j < frequencies_hz.len() ==> frequencies_hz[i] <= frequencies_hz[j]
}

impl SettingsModel {
    pub open spec fn receiver(self) -> PointSettings {
        match self {
            SettingsModel::S11(p) => PointSettings::S11 { cal: p.cal, format: p.format, rbw: p.rbw },
            SettingsModel::S21(p) => PointSettings::S21 {
                cal: p.cal,
                format: p.format,
                lo: p.lo,
                rbw: p.rbw,
            },
            SettingsModel::Spec(p) => PointSettings::Spec {
                cal: p.cal,
                lo: p.lo,
                rbw: p.rbw,
                ref_level_dbm: p.ref_level_dbm,
            },
            SettingsModel::Segments { settings, .. } => settings,
            SettingsModel::List { settings, .. } => settings,
        }
    }

    pub open spec fn mode(self) -> StreamMode {
        self.receiver().spec_mode()
    }

    pub open spec fn format(self) -> Seq<char> {
        self.receiver().spec_format()
    }

    /// Number of requested samples, as a 32-bit count.
    pub open spec fn points(self) -> u32 {
        match self {
            SettingsModel::S11(p) => p.points,
            SettingsModel::S21(p) => p.points,
            SettingsModel::Spec(p) => p.points,
            SettingsModel::Segments { acquired, .. } => acquired,
            SettingsModel::List { frequencies_hz, .. } => frequencies_hz.len() as u32,
        }
    }

    /// Row counts that a complete sweep can have. Adjacent spans may share
    /// their common end, so each boundary can cost one row.
    pub open spec fn complete_rows(self, rows: nat) -> bool {
        match self {
            SettingsModel::Segments { segments, acquired, .. } => acquired - segments.len() + 1
                <= rows <= acquired,
            _ => rows == self.points(),
        }
    }

    /// Why these settings cannot be acquired, given the driver's verdict on
    /// its own parameters.
    pub open spec fn fault(self, device: Option<DeviceError>) -> Option<DeviceError> {
        if self is List && !ascending_list(self->List_frequencies_hz) {
            Some(DeviceError::InvalidParameter(Reason::FrequencyList))
        } else if device is Some {
            device
        } else if self.receiver().spec_rbw() is None {
            Some(DeviceError::InvalidParameter(Reason::Bandwidth))
        } else {
            None
        }
    }
}

/// Whether no entry is below the one before it.
fn never_descends(frequencies_hz: &Vec<u64>) -> (ascending: bool)
    ensures
        ascending == (forall|i: int, j: int|
            0 <= i <= j < frequencies_hz@.len() ==> frequencies_hz@[i] <= frequencies_hz@[j]),
{
    let mut index: usize = 1;
    while index < frequencies_hz.len()
        invariant
            1 <= index,
            frequencies_hz@.len() == 0 || index <= frequencies_hz@.len(),
            forall|i: int, j: int|
                0 <= i <= j < index && j < frequencies_hz@.len() ==> frequencies_hz@[i]
                    <= frequencies_hz@[j],
        decreases frequencies_hz@.len() - index,
    {
        if frequencies_hz[index - 1] > frequencies_hz[index] {
            return false;
        }
        index = index + 1;
    }
    true
}

impl AcquisitionSettings {
    pub fn receiver(&self) -> (settings: PointSettings)
        ensures
            settings == self@.receiver(),
    {
        match self {
            AcquisitionSettings::S11(p) => PointSettings::S11 {
                cal: p.cal,
                format: p.format,
                rbw: p.rbw,
            },
            AcquisitionSettings::S21(p) => PointSettings::S21 {
                cal: p.cal,
                format: p.format,
                lo: p.lo,
                rbw: p.rbw,
            },
            AcquisitionSettings::Spec(p) => PointSettings::Spec {
                cal: p.cal,
                lo: p.lo,
                rbw: p.rbw,
                ref_level_dbm: p.ref_level_dbm,
            },
            AcquisitionSettings::List { settings, .. } => *settings,
            AcquisitionSettings::Segments(plan) => *plan.settings(),
        }
    }

    /// Check the settings. `device` is the driver's verdict on the parameters
    /// of every sweep or point that they ask for, first refusal first.
    pub fn validate(&self, device: &Option<DeviceError>) -> (result: Result<(), DeviceError>)
        ensures
            match result {
                Ok(_) => self@.fault(*device) is None,
                Err(error) => self@.fault(*device) == Some(error),
            },
    {
        if let AcquisitionSettings::List { frequencies_hz, .. } = self {
            if frequencies_hz.len() < MIN_LIST_POINTS || frequencies_hz.len() > MAX_LIST_POINTS
                || !never_descends(frequencies_hz) {
                return Err(DeviceError::InvalidParameter(Reason::FrequencyList));
            }
        }
        if let Some(error) = device {
            return Err(error.clone());
        }
        let rbw: Option<Rbw> = self.receiver().rbw();
        if rbw.is_none() {
            return Err(DeviceError::InvalidParameter(Reason::Bandwidth));
        }
        Ok(())
    }

    pub fn mode(&self) -> (mode: StreamMode)
        ensures
            mode == self@.mode(),
    {
        self.receiver().mode()
    }

    pub fn format(&self) -> (format: &'static str)
        ensures
            format@ == self@.format(),
    {
        self.receiver().format()
    }

    pub fn points(&self) -> (points: u32)
        ensures
            points == self@.points(),
    {
        match self {
            AcquisitionSettings::S11(p) => p.points,
            AcquisitionSettings::S21(p) => p.points,
            AcquisitionSettings::Spec(p) => p.points,
            AcquisitionSettings::Segments(plan) => plan.acquired_points(),
            AcquisitionSettings::List { frequencies_hz, .. } => frequencies_hz.len() as u32,
        }
    }

    /// Whether `data` is a complete sweep under these settings.
    pub fn accepts(&self, data: &SweepData) -> (accepted: bool)
        ensures
            accepted == (data.mode == self@.mode() && data.format@ == self@.format()
                && self@.complete_rows(data.points@.len())),
    {
        if data.mode != self.mode() || !same_text(data.format.as_str(), self.format()) {
            return false;
        }
        let rows: u64 = data.points.len() as u64;
        match self {
            AcquisitionSettings::Segments(plan) => {
                let maximum: u64 = plan.acquired_points() as u64;
                let spans: u64 = plan.segments().len() as u64;
                maximum - spans + 1 <= rows && rows <= maximum
            },
            _ => rows == self.points() as u64,
        }
    }

    /// Whether both ask the instrument for the same thing.
    pub fn same(&self, other: &Self) -> (same: bool)
        ensures
            same == (self@ == other@),
    {
        match (self, other) {
            (AcquisitionSettings::S11(a), AcquisitionSettings::S11(b)) => *a == *b,
            (AcquisitionSettings::S21(a), AcquisitionSettings::S21(b)) => *a == *b,
            (AcquisitionSettings::Spec(a), AcquisitionSettings::Spec(b)) => *a == *b,
            (AcquisitionSettings::Segments(a), AcquisitionSettings::Segments(b)) => {
                *a.settings() == *b.settings() && a.acquired_points() == b.acquired_points()
                    && same_segments(a.segments(), b.segments())
            },
            (
                AcquisitionSettings::List { settings: a, frequencies_hz: x },
                AcquisitionSettings::List { settings: b, frequencies_hz: y },
            ) => *a == *b && same_frequencies(x, y),
            _ => false,
        }
    }
}

fn same_segments(a: &Vec<Segment>, b: &Vec<Segment>) -> (same: bool)
    ensures
        same == (a@ == b@),
{
    if a.len() != b.len() {
        return false;
    }
    let mut index: usize = 0;
    while index < a.len()
        invariant
            index <= a@.len() == b@.len(),
            forall|i: int| 0 <= i < index ==> a@[i] == b@[i],
        decreases a@.len() - index,
    {
        if a[index] != b[index] {
            return false;
        }
        index = index + 1;
    }
    assert(a@ =~= b@);
    true
}

/// Whether two frequency lists are the same.
pub fn same_frequencies(a: &Vec<u64>, b: &Vec<u64>) -> (same: bool)
    ensures
        same == (a@ == b@),
{
    if a.len() != b.len() {
        return false;
    }
    let mut index: usize = 0;
    while index < a.len()
        invariant
            index <= a@.len() == b@.len(),
            forall|i: int| 0 <= i < index ==> a@[i] == b@[i],
        decreases a@.len() - index,
    {
        if a[index] != b[index] {
            return false;
        }
        index = index + 1;
    }
    assert(a@ =~= b@);
    true
}

impl From<SegmentPlan> for AcquisitionSettings {
    fn from(plan: SegmentPlan) -> (settings: Self) {
        AcquisitionSettings::Segments(plan)
    }
}

impl vstd::std_specs::convert::FromSpecImpl<SegmentPlan> for AcquisitionSettings {
    open spec fn obeys_from_spec() -> bool {
        true
    }

    open spec fn from_spec(plan: SegmentPlan) -> Self {
        AcquisitionSettings::Segments(plan)
    }
}

impl Clone for AcquisitionSettings {
    fn clone(&self) -> (copy: Self)
        ensures
            copy@ == self@,
    {
        match self {
            AcquisitionSettings::S11(p) => AcquisitionSettings::S11(*p),
            AcquisitionSettings::S21(p) => AcquisitionSettings::S21(*p),
            AcquisitionSettings::Spec(p) => AcquisitionSettings::Spec(*p),
            AcquisitionSettings::Segments(plan) => AcquisitionSettings::Segments(plan.clone()),
            AcquisitionSettings::List { settings, frequencies_hz } => {
                let copied = frequencies_hz.clone();
                assert(copied@ =~= frequencies_hz@);
                AcquisitionSettings::List { settings: *settings, frequencies_hz: copied }
            },
        }
    }
}

/// Traces that one acquisition serves.
#[derive(Debug, PartialEq, Eq)]
pub struct AcquisitionGroup {
    pub settings: AcquisitionSettings,
    pub members: Vec<TraceId>,
}

/// What an [`AcquisitionGroup`] stands for.
#[verifier::ext_equal]
pub struct GroupModel {
    pub settings: SettingsModel,
    pub members: Seq<TraceId>,
}

impl View for AcquisitionGroup {
    type V = GroupModel;

    open spec fn view(&self) -> GroupModel {
        GroupModel { settings: self.settings@, members: self.members@ }
    }
}

/// What a list of groups stands for.
pub open spec fn group_models(groups: Seq<AcquisitionGroup>) -> Seq<GroupModel> {
    groups.map_values(|group: AcquisitionGroup| group@)
}

impl AcquisitionGroup {
    /// Whether both name the same conditions and the same traces in order.
    pub fn same(&self, other: &Self) -> (same: bool)
        ensures
            same == (self@ == other@),
    {
        if !self.settings.same(&other.settings) || self.members.len() != other.members.len() {
            return false;
        }
        let mut index: usize = 0;
        while index < self.members.len()
            invariant
                index <= self.members@.len() == other.members@.len(),
                forall|i: int| 0 <= i < index ==> self.members@[i] == other.members@[i],
            decreases self.members@.len() - index,
        {
            if self.members[index] != other.members[index] {
                return false;
            }
            index = index + 1;
        }
        assert(self.members@ =~= other.members@);
        true
    }
}

impl Clone for AcquisitionGroup {
    fn clone(&self) -> (copy: Self)
        ensures
            copy@ == self@,
    {
        AcquisitionGroup { settings: self.settings.clone(), members: copied(&self.members) }
    }
}

/// Whether `id` is listed.
pub fn contains_id(ids: &Vec<TraceId>, id: TraceId) -> (found: bool)
    ensures
        found == ids@.contains(id),
{
    let mut index: usize = 0;
    while index < ids.len()
        invariant
            index <= ids@.len(),
            forall|i: int| 0 <= i < index ==> ids@[i] != id,
        decreases ids@.len() - index,
    {
        if ids[index] == id {
            assert(ids@[index as int] == id);
            return true;
        }
        index = index + 1;
    }
    false
}

/// File formats of recorded passes.
#[derive(Debug, Clone, Copy, PartialEq, Eq, Structural)]
pub enum RecordingFormat {
    Csv,
    Xlsx,
}

/// Which recorded passes are kept.
#[derive(Debug, Clone, Copy, PartialEq, Eq, Structural)]
pub enum Retention {
    KeepAll,
    KeepLast(u32),
}

/// Unit in which the interval is shown. The interval itself is always kept in
/// milliseconds.
#[derive(Debug, Clone, Copy, PartialEq, Eq, Structural)]
pub enum IntervalUnit {
    Milliseconds,
    Seconds,
    Minutes,
}

#[derive(Debug, PartialEq, Eq)]
pub struct RecordingSettings {
    pub enabled: bool,
    pub directory: String,
    pub format: RecordingFormat,
    pub retention: Retention,
}

/// How passes repeat and where they are kept.
#[derive(Debug, PartialEq, Eq)]
pub struct RunSettings {
    pub interval_ms: u64,
    pub interval_unit: IntervalUnit,
    pub recording: RecordingSettings,
}

impl RunSettings {
    /// Whether passes follow each other at once and nothing is recorded.
    pub open spec fn is_plain(self) -> bool {
        &&& self.interval_ms == 0
        &&& self.interval_unit is Milliseconds
        &&& !self.recording.enabled
        &&& self.recording.directory@.len() == 0
        &&& self.recording.format is Csv
        &&& self.recording.retention is KeepAll
    }
}

impl Default for RunSettings {
    fn default() -> (run: Self)
        ensures
            run.is_plain(),
    {
        RunSettings {
            interval_ms: 0,
            interval_unit: IntervalUnit::Milliseconds,
            recording: RecordingSettings {
                enabled: false,
                directory: String::new(),
                format: RecordingFormat::Csv,
                retention: Retention::KeepAll,
            },
        }
    }
}

impl Clone for RunSettings {
    fn clone(&self) -> (copy: Self)
        ensures
            copy == *self,
    {
        RunSettings {
            interval_ms: self.interval_ms,
            interval_unit: self.interval_unit,
            recording: RecordingSettings {
                enabled: self.recording.enabled,
                directory: self.recording.directory.clone(),
                format: self.recording.format,
                retention: self.recording.retention,
            },
        }
    }
}

/// One finite pass over visible definitions, repeated by a single worker.
#[derive(Debug, PartialEq, Eq)]
pub struct SweepPlan {
    pub groups: Vec<AcquisitionGroup>,
    pub run: RunSettings,
}

/// Verdicts of other parts of the program on a request: the run settings'
/// own check, and the driver's check of each group, or of the one parameter set.
#[derive(Debug, PartialEq, Eq)]
pub struct Checks {
    pub run: Option<String>,
    pub devices: Vec<Option<DeviceError>>,
}

impl Checks {
    /// The driver's verdict on the `index`-th group.
    pub open spec fn device(self, index: int) -> Option<DeviceError> {
        self.devices@[index]
    }

    /// Whether the driver accepts the `index`-th group.
    pub fn device_accepts(&self, index: usize) -> (accepted: bool)
        requires
            index < self.devices@.len(),
        ensures
            accepted == (self.device(index as int) is None),
    {
        self.devices[index].is_none()
    }

    /// The driver's verdict on the `index`-th group.
    pub fn device_verdict(&self, index: usize) -> (verdict: Option<DeviceError>)
        requires
            index < self.devices@.len(),
        ensures
            verdict == self.device(index as int),
    {
        match &self.devices[index] {
            Some(error) => Some(error.clone()),
            None => None,
        }
    }
}

/// One trace's wish, with the driver's verdict on it.
#[derive(Debug)]
pub struct TraceRequest {
    pub id: TraceId,
    pub settings: AcquisitionSettings,
    pub device: Option<DeviceError>,
}

/// Why the `index`-th request is refused, when those before it were not.
pub open spec fn request_fault(requests: Seq<TraceRequest>, index: int) -> Option<DeviceError> {
    if requests[index].id.0 == 0 || exists|i: int|
        0 <= i < index && requests[i].id == requests[index].id {
        Some(DeviceError::InvalidParameter(Reason::TraceId))
    } else if index >= MAX_TRACES {
        Some(DeviceError::InvalidParameter(Reason::TraceLimit))
    } else {
        requests[index].settings@.fault(requests[index].device)
    }
}

/// The first refusal among the first `count` requests.
pub open spec fn first_request_fault(requests: Seq<TraceRequest>, count: int) -> Option<DeviceError>
    decreases count,
{
    if count <= 0 {
        None
    } else if first_request_fault(requests, count - 1) is Some {
        first_request_fault(requests, count - 1)
    } else {
        request_fault(requests, count - 1)
    }
}

/// Whether a group with these conditions exists.
pub open spec fn has_settings(groups: Seq<GroupModel>, settings: SettingsModel) -> bool {
    exists|i: int| 0 <= i < groups.len() && #[trigger] groups[i].settings == settings
}

/// Position of the first group with these conditions.
pub open spec fn settings_index(groups: Seq<GroupModel>, settings: SettingsModel) -> int
    decreases groups.len(),
{
    if groups.len() == 0 || groups[0].settings == settings {
        0
    } else {
        1 + settings_index(groups.skip(1), settings)
    }
}

/// The groups after one more trace: it joins the group that shares its
/// conditions, or opens a new one at the end.
pub open spec fn joined(groups: Seq<GroupModel>, id: TraceId, settings: SettingsModel) -> Seq<
    GroupModel,
> {
    if has_settings(groups, settings) {
        let index = settings_index(groups, settings);
        groups.update(
            index,
            GroupModel { settings: groups[index].settings, members: groups[index].members.push(id) },
        )
    } else {
        groups.push(GroupModel { settings, members: seq![id] })
    }
}

/// The groups of the first `count` requests.
pub open spec fn grouped(requests: Seq<TraceRequest>, count: int) -> Seq<GroupModel>
    decreases count,
{
    if count <= 0 {
        seq![]
    } else {
        joined(
            grouped(requests, count - 1),
            requests[count - 1].id,
            requests[count - 1].settings@,
        )
    }
}

/// All traces of the first `count` groups, in order.
pub open spec fn listed(groups: Seq<GroupModel>, count: int) -> Seq<TraceId>
    decreases count,
{
    if count <= 0 {
        seq![]
    } else {
        listed(groups, count - 1) + groups[count - 1].members
    }
}

/// Whether the `at`-th member of the `index`-th group is nobody, listed
/// before, or one trace too many.
pub open spec fn bad_member(groups: Seq<GroupModel>, index: int, at: int) -> bool {
    let before = listed(groups, index) + groups[index].members.take(at);
    let id = groups[index].members[at];
    id.0 == 0 || before.contains(id) || before.len() >= MAX_TRACES
}

/// Why the `index`-th group is refused, when those before it were not.
pub open spec fn group_fault(
    groups: Seq<GroupModel>,
    device: Option<DeviceError>,
    index: int,
) -> Option<DeviceError> {
    if groups[index].settings.fault(device) is Some {
        groups[index].settings.fault(device)
    } else if groups[index].members.len() == 0 || has_settings(
        groups.take(index),
        groups[index].settings,
    ) {
        Some(DeviceError::InvalidParameter(Reason::Group))
    } else if exists|at: int|
        0 <= at < groups[index].members.len() && bad_member(groups, index, at) {
        Some(DeviceError::InvalidParameter(Reason::Membership))
    } else {
        None
    }
}

/// The first refusal among the first `count` groups.
pub open spec fn first_group_fault(
    groups: Seq<GroupModel>,
    checks: Checks,
    count: int,
) -> Option<DeviceError>
    decreases count,
{
    if count <= 0 {
        None
    } else if first_group_fault(groups, checks, count - 1) is Some {
        first_group_fault(groups, checks, count - 1)
    } else {
        group_fault(groups, checks.device(count - 1), count - 1)
    }
}

/// Why a plan is refused.
pub open spec fn plan_fault(groups: Seq<GroupModel>, checks: Checks) -> Option<DeviceError> {
    if checks.run is Some {
        Some(DeviceError::InvalidParameter(Reason::Other(checks.run->0)))
    } else if groups.len() == 0 || groups.len() > MAX_TRACES {
        Some(DeviceError::InvalidParameter(Reason::VisibleTraces))
    } else {
        first_group_fault(groups, checks, groups.len() as int)
    }
}

proof fn lemma_settings_index(groups: Seq<GroupModel>, settings: SettingsModel)
    requires
        has_settings(groups, settings),
    ensures
        0 <= settings_index(groups, settings) < groups.len(),
        groups[settings_index(groups, settings)].settings == settings,
        forall|i: int|
            0 <= i < settings_index(groups, settings) ==> groups[i].settings != settings,
    decreases groups.len(),
{
    let witness = choose|i: int| 0 <= i < groups.len() && #[trigger] groups[i].settings == settings;
    if groups[0].settings != settings {
        let rest = groups.skip(1);
        assert(rest[witness - 1].settings == settings);
        lemma_settings_index(rest, settings);
        assert forall|i: int| 0 <= i < settings_index(groups, settings) implies groups[i].settings
            != settings by {
            if i > 0 {
                assert(rest[i - 1].settings != settings);
            }
        }
    }
}

proof fn lemma_first_settings(groups: Seq<GroupModel>, settings: SettingsModel, index: int)
    requires
        0 <= index < groups.len(),
        groups[index].settings == settings,
        forall|i: int| 0 <= i < index ==> groups[i].settings != settings,
    ensures
        settings_index(groups, settings) == index,
{
    lemma_settings_index(groups, settings);
}

proof fn lemma_first_request_fault(requests: Seq<TraceRequest>, at: int, count: int)
    requires
        0 < at <= count,
        first_request_fault(requests, at) is Some,
    ensures
        first_request_fault(requests, count) == first_request_fault(requests, at),
    decreases count - at,
{
    if at < count {
        lemma_first_request_fault(requests, at, count - 1);
    }
}

proof fn lemma_first_group_fault(groups: Seq<GroupModel>, checks: Checks, at: int, count: int)
    requires
        0 < at <= count,
        first_group_fault(groups, checks, at) is Some,
    ensures
        first_group_fault(groups, checks, count) == first_group_fault(groups, checks, at),
    decreases count - at,
{
    if at < count {
        lemma_first_group_fault(groups, checks, at, count - 1);
    }
}

impl SweepPlan {
    pub open spec fn models(self) -> Seq<GroupModel> {
        group_models(self.groups@)
    }

    /// Group the requests by what they ask of the instrument.
    pub fn from_requests(requests: Vec<TraceRequest>) -> (result: Result<Self, DeviceError>)
        ensures
            match result {
                Ok(plan) => first_request_fault(requests@, requests@.len() as int) is None
                    && requests@.len() > 0 && plan.models() == grouped(
                    requests@,
                    requests@.len() as int,
                ) && plan.run.is_plain(),
                Err(error) => if first_request_fault(requests@, requests@.len() as int) is Some {
                    first_request_fault(requests@, requests@.len() as int) == Some(error)
                } else {
                    requests@.len() == 0 && error == DeviceError::InvalidParameter(
                        Reason::VisibleTraces,
                    )
                },
            },
    {
        let mut groups: Vec<AcquisitionGroup> = Vec::new();
        let mut members: Vec<TraceId> = Vec::new();
        let mut index: usize = 0;
        assert(group_models(groups@) =~= grouped(requests@, 0));
        while index < requests.len()
            invariant
                index <= requests@.len(),
                members@.len() == index,
                index <= MAX_TRACES,
                forall|i: int| 0 <= i < index ==> members@[i] == (#[trigger] requests@[i]).id,
                first_request_fault(requests@, index as int) is None,
                group_models(groups@) == grouped(requests@, index as int),
            decreases requests@.len() - index,
        {
            let request = &requests[index];
            let repeated = contains_id(&members, request.id);
            proof {
                if members@.contains(request.id) {
                    let i = choose|i: int| 0 <= i < members@.len() && members@[i] == request.id;
                    assert(requests@[i].id == request.id);
                }
                assert forall|i: int| 0 <= i < index && requests@[i].id == request.id implies
                    members@.contains(request.id) by {
                    assert(members@[i] == request.id);
                }
            }
            if request.id.0 == 0 || repeated {
                proof {
                    lemma_first_request_fault(requests@, index + 1, requests@.len() as int);
                }
                return Err(DeviceError::InvalidParameter(Reason::TraceId));
            }
            if members.len() == MAX_TRACES {
                proof {
                    lemma_first_request_fault(requests@, index + 1, requests@.len() as int);
                }
                return Err(DeviceError::InvalidParameter(Reason::TraceLimit));
            }
            if let Err(error) = request.settings.validate(&request.device) {
                proof {
                    lemma_first_request_fault(requests@, index + 1, requests@.len() as int);
                }
                return Err(error);
            }
            members.push(request.id);
            join(&mut groups, request.id, &request.settings);
            index = index + 1;
        }
        if groups.len() == 0 {
            proof {
                if requests@.len() > 0 {
                    lemma_grouped_nonempty(requests@, requests@.len() as int);
                }
            }
            return Err(DeviceError::InvalidParameter(Reason::VisibleTraces));
        }
        Ok(SweepPlan { groups, run: RunSettings::default() })
    }

    /// Recheck a plan before any instrument state changes.
    pub fn validate(&self, checks: &Checks) -> (result: Result<(), DeviceError>)
        requires
            checks.devices@.len() == self.groups@.len(),
        ensures
            match result {
                Ok(_) => plan_fault(self.models(), *checks) is None,
                Err(error) => plan_fault(self.models(), *checks) == Some(error),
            },
    {
        if let Some(words) = &checks.run {
            return Err(DeviceError::InvalidParameter(Reason::Other(words.clone())));
        }
        if self.groups.len() == 0 || self.groups.len() > MAX_TRACES {
            return Err(DeviceError::InvalidParameter(Reason::VisibleTraces));
        }
        let ghost models = self.models();
        let mut members: Vec<TraceId> = Vec::new();
        let mut index: usize = 0;
        while index < self.groups.len()
            invariant
                models == self.models(),
                checks.run is None,
                checks.devices@.len() == self.groups@.len(),
                0 < self.groups@.len() <= MAX_TRACES,
                index <= self.groups@.len(),
                members@ == listed(models, index as int),
                members@.len() <= MAX_TRACES,
                first_group_fault(models, *checks, index as int) is None,
            decreases self.groups@.len() - index,
        {
            let group = &self.groups[index];
            assert(models[index as int] == group@);
            if let Err(error) = group.settings.validate(&checks.devices[index]) {
                proof {
                    lemma_first_group_fault(models, *checks, index + 1, models.len() as int);
                }
                return Err(error);
            }
            if group.members.len() == 0 || repeats(&self.groups, index) {
                proof {
                    lemma_first_group_fault(models, *checks, index + 1, models.len() as int);
                }
                return Err(DeviceError::InvalidParameter(Reason::Group));
            }
            let mut at: usize = 0;
            while at < group.members.len()
                invariant
                    models == self.models(),
                    checks.run is None,
                    0 < self.groups@.len() <= MAX_TRACES,
                    index < self.groups@.len(),
                    *group == self.groups@[index as int],
                    models[index as int] == group@,
                    at <= group.members@.len(),
                    members@ == listed(models, index as int) + group.members@.take(at as int),
                    members@.len() <= MAX_TRACES,
                    forall|i: int| 0 <= i < at ==> !bad_member(models, index as int, i),
                    first_group_fault(models, *checks, index as int) is None,
                    models[index as int].settings.fault(checks.device(index as int)) is None,
                    group.members@.len() > 0,
                    !has_settings(models.take(index as int), group.settings@),
                decreases group.members@.len() - at,
            {
                let id = group.members[at];
                if id.0 == 0 || contains_id(&members, id) || members.len() == MAX_TRACES {
                    proof {
                        assert(bad_member(models, index as int, at as int));
                        lemma_first_group_fault(models, *checks, index + 1, models.len() as int);
                    }
                    return Err(DeviceError::InvalidParameter(Reason::Membership));
                }
                assert(!bad_member(models, index as int, at as int));
                members.push(id);
                at = at + 1;
                assert(group.members@.take(at as int) =~= group.members@.take(at - 1).push(id));
                assert(members@ =~= listed(models, index as int) + group.members@.take(at as int));
            }
            assert(group.members@.take(at as int) =~= group.members@);
            index = index + 1;
        }
        Ok(())
    }
}

/// Whether an earlier group asks for the same as the `index`-th.
fn repeats(groups: &Vec<AcquisitionGroup>, index: usize) -> (repeated: bool)
    requires
        index < groups@.len(),
    ensures
        repeated == has_settings(
            group_models(groups@).take(index as int),
            groups@[index as int].settings@,
        ),
{
    let ghost earlier = group_models(groups@).take(index as int);
    let mut at: usize = 0;
    while at < index
        invariant
            at <= index < groups@.len(),
            earlier == group_models(groups@).take(index as int),
            forall|i: int|
                0 <= i < at ==> (#[trigger] earlier[i]).settings
                    != groups@[index as int].settings@,
        decreases index - at,
    {
        assert(earlier[at as int] == groups@[at as int]@);
        if groups[at].settings.same(&groups[index].settings) {
            return true;
        }
        at = at + 1;
    }
    false
}

/// Let a trace join the group that shares its conditions, or open one.
fn join(groups: &mut Vec<AcquisitionGroup>, id: TraceId, settings: &AcquisitionSettings)
    ensures
        group_models(final(groups)@) == joined(group_models(old(groups)@), id, settings@),
{
    let ghost before = group_models(groups@);
    let mut at: usize = 0;
    while at < groups.len()
        invariant
            at <= groups@.len(),
            groups@ == old(groups)@,
            before == group_models(groups@),
            forall|i: int| 0 <= i < at ==> (#[trigger] before[i]).settings != settings@,
        decreases groups@.len() - at,
    {
        assert(before[at as int] == groups@[at as int]@);
        if groups[at].settings.same(settings) {
            proof {
                lemma_first_settings(before, settings@, at as int);
            }
            groups[at].members.push(id);
            assert(group_models(groups@) =~= joined(before, id, settings@));
            return;
        }
        at = at + 1;
    }
    let mut members: Vec<TraceId> = Vec::new();
    members.push(id);
    groups.push(AcquisitionGroup { settings: settings.clone(), members });
    assert(members_of_one(id) =~= groups@[groups@.len() - 1].members@);
    assert(group_models(groups@) =~= joined(before, id, settings@));
}

spec fn members_of_one(id: TraceId) -> Seq<TraceId> {
    seq![id]
}

proof fn lemma_grouped_nonempty(requests: Seq<TraceRequest>, count: int)
    requires
        count > 0,
    ensures
        grouped(requests, count).len() > 0,
{
    let before = grouped(requests, count - 1);
    if has_settings(before, requests[count - 1].settings@) {
        lemma_settings_index(before, requests[count - 1].settings@);
    }
}

/// One complete measured frame and the immutable conditions that produced it.
#[derive(Debug, PartialEq, Eq)]
pub struct CompletedSweep {
    pub data: SweepData,
    pub segments: Option<SegmentMetadata>,
    pub settings: AcquisitionSettings,
    pub session_id: u64,
    /// Milliseconds since the epoch of the system clock.
    pub completed_at: u64,
}

impl CompletedSweep {
    /// Whether the rows are a complete sweep under the recorded conditions,
    /// with span records exactly when the sweep was segmented.
    pub fn accepts_data(&self) -> (accepted: bool)
        ensures
            accepted == (self.data.mode == self.settings@.mode() && self.data.format@
                == self.settings@.format() && self.settings@.complete_rows(
                self.data.points@.len(),
            ) && match self.segments {
                Some(metadata) => self.settings is Segments && metadata.consistent,
                None => !(self.settings is Segments),
            }),
    {
        self.settings.accepts(&self.data) && match (&self.settings, &self.segments) {
            (AcquisitionSettings::Segments(_), Some(metadata)) => metadata.consistent,
            (AcquisitionSettings::Segments(_), None) => false,
            (_, Some(_)) => false,
            (_, None) => true,
        }
    }
}

/// A completed sweep on its way to the traces that asked for it.
#[derive(Debug)]
pub struct SweepDelivery {
    pub members: Vec<TraceId>,
    pub snapshot: Arc<CompletedSweep>,
}

/// The traces among the first `count` requests that ask for `settings`, in
/// the order of the requests.
pub open spec fn ids_with(
    requests: Seq<TraceRequest>,
    count: int,
    settings: SettingsModel,
) -> Seq<TraceId>
    decreases count,
{
    if count <= 0 {
        seq![]
    } else if requests[count - 1].settings@ == settings {
        ids_with(requests, count - 1, settings).push(requests[count - 1].id)
    } else {
        ids_with(requests, count - 1, settings)
    }
}

/// Requests share one group exactly when they ask for the same thing: the
/// groups' conditions differ, every request's conditions have a group, and a
/// group lists its requests' traces in the order of the requests.
pub proof fn law_groups_share_equal_requests(requests: Seq<TraceRequest>, count: int)
    requires
        0 <= count <= requests.len(),
    ensures
        grouped(requests, count).len() <= count,
        forall|i: int, j: int|
            0 <= i < j < grouped(requests, count).len() ==> (#[trigger] grouped(
                requests,
                count,
            )[i]).settings != (#[trigger] grouped(requests, count)[j]).settings,
        forall|i: int|
            0 <= i < count ==> has_settings(
                grouped(requests, count),
                (#[trigger] requests[i]).settings@,
            ),
        forall|i: int|
            0 <= i < grouped(requests, count).len() ==> (#[trigger] grouped(
                requests,
                count,
            )[i]).members == ids_with(requests, count, grouped(requests, count)[i].settings),
        forall|i: int|
            0 <= i < grouped(requests, count).len() ==> (#[trigger] grouped(
                requests,
                count,
            )[i]).members.len() > 0,
    decreases count,
{
    if count > 0 {
        law_groups_share_equal_requests(requests, count - 1);
        let before = grouped(requests, count - 1);
        let after = grouped(requests, count);
        let last = requests[count - 1];
        if has_settings(before, last.settings@) {
            lemma_settings_index(before, last.settings@);
            let index = settings_index(before, last.settings@);
            assert forall|i: int| 0 <= i < count implies has_settings(
                after,
                (#[trigger] requests[i]).settings@,
            ) by {
                if i < count - 1 {
                    let at = choose|at: int|
                        0 <= at < before.len() && #[trigger] before[at].settings
                            == requests[i].settings@;
                    assert(after[at].settings == requests[i].settings@);
                } else {
                    assert(after[index].settings == last.settings@);
                }
            }
        } else {
            lemma_no_ids(requests, count - 1, last.settings@, before);
            assert forall|i: int| 0 <= i < count implies has_settings(
                after,
                (#[trigger] requests[i]).settings@,
            ) by {
                if i < count - 1 {
                    let at = choose|at: int|
                        0 <= at < before.len() && #[trigger] before[at].settings
                            == requests[i].settings@;
                    assert(after[at].settings == requests[i].settings@);
                } else {
                    assert(after[before.len() as int].settings == last.settings@);
                }
            }
            assert(after[before.len() as int].members =~= ids_with(
                requests,
                count,
                last.settings@,
            ));
        }
    }
}

proof fn lemma_no_ids(
    requests: Seq<TraceRequest>,
    count: int,
    settings: SettingsModel,
    groups: Seq<GroupModel>,
)
    requires
        !has_settings(groups, settings),
        forall|i: int| 0 <= i < count ==> has_settings(groups, (#[trigger] requests[i]).settings@),
    ensures
        ids_with(requests, count, settings) == Seq::<TraceId>::empty(),
    decreases count,
{
    if count > 0 {
        lemma_no_ids(requests, count - 1, settings, groups);
        assert(requests[count - 1].settings@ != settings);
    }
}

proof fn lemma_faultless(requests: Seq<TraceRequest>, count: int)
    requires
        first_request_fault(requests, count) is None,
    ensures
        forall|i: int| 0 <= i < count ==> #[trigger] request_fault(requests, i) is None,
    decreases count,
{
    if count > 0 {
        lemma_faultless(requests, count - 1);
    }
}

/// Whether one of the first `count` requests asks for `settings` as `id`.
spec fn asks(requests: Seq<TraceRequest>, count: int, settings: SettingsModel, id: TraceId) -> bool {
    exists|i: int|
        0 <= i < count && requests[i].settings@ == settings && (#[trigger] requests[i]).id == id
}

proof fn lemma_ids_with(requests: Seq<TraceRequest>, count: int, settings: SettingsModel)
    requires
        0 <= count <= requests.len(),
        forall|i: int| 0 <= i < count ==> #[trigger] request_fault(requests, i) is None,
    ensures
        ids_with(requests, count, settings).no_duplicates(),
        forall|k: int|
            0 <= k < ids_with(requests, count, settings).len() ==> asks(
                requests,
                count,
                settings,
                #[trigger] ids_with(requests, count, settings)[k],
            ),
    decreases count,
{
    if count > 0 {
        lemma_ids_with(requests, count - 1, settings);
        let before = ids_with(requests, count - 1, settings);
        let last = requests[count - 1];
        assert(request_fault(requests, count - 1) is None);
        assert forall|k: int| 0 <= k < ids_with(requests, count, settings).len() implies asks(
            requests,
            count,
            settings,
            #[trigger] ids_with(requests, count, settings)[k],
        ) by {
            if k < before.len() {
                assert(asks(requests, count - 1, settings, before[k]));
                let i = choose|i: int|
                    0 <= i < count - 1 && requests[i].settings@ == settings && (
                    #[trigger] requests[i]).id == before[k];
                assert(requests[i].id == ids_with(requests, count, settings)[k]);
            } else {
                assert(last.id == ids_with(requests, count, settings)[k]);
            }
        }
        if last.settings@ == settings {
            assert forall|k: int| 0 <= k < before.len() implies before[k] != last.id by {
                assert(asks(requests, count - 1, settings, before[k]));
                let i = choose|i: int|
                    0 <= i < count - 1 && requests[i].settings@ == settings && (
                    #[trigger] requests[i]).id == before[k];
                assert(requests[i].id == before[k]);
            }
        }
    }
}

proof fn lemma_listed_updated(groups: Seq<GroupModel>, at: int, id: TraceId, count: int)
    requires
        0 <= at < groups.len(),
        0 <= count <= groups.len(),
    ensures
        listed(
            groups.update(
                at,
                GroupModel { settings: groups[at].settings, members: groups[at].members.push(id) },
            ),
            count,
        ).len() == listed(groups, count).len() + if at < count {
            1int
        } else {
            0
        },
    decreases count,
{
    if count > 0 {
        lemma_listed_updated(groups, at, id, count - 1);
    }
}

proof fn lemma_listed_prefix(groups: Seq<GroupModel>, more: Seq<GroupModel>, count: int)
    requires
        0 <= count <= groups.len() <= more.len(),
        forall|i: int| 0 <= i < count ==> groups[i] == more[i],
    ensures
        listed(groups, count) == listed(more, count),
    decreases count,
{
    if count > 0 {
        lemma_listed_prefix(groups, more, count - 1);
    }
}

/// Every request is listed in exactly one place.
proof fn lemma_listed_total(requests: Seq<TraceRequest>, count: int)
    requires
        0 <= count <= requests.len(),
    ensures
        listed(grouped(requests, count), grouped(requests, count).len() as int).len() == count,
    decreases count,
{
    if count > 0 {
        lemma_listed_total(requests, count - 1);
        let before = grouped(requests, count - 1);
        let last = requests[count - 1];
        if has_settings(before, last.settings@) {
            lemma_settings_index(before, last.settings@);
            lemma_listed_updated(
                before,
                settings_index(before, last.settings@),
                last.id,
                before.len() as int,
            );
        } else {
            lemma_listed_prefix(before, grouped(requests, count), before.len() as int);
        }
    }
}

proof fn lemma_listed_monotone(groups: Seq<GroupModel>, low: int, high: int)
    requires
        0 <= low <= high <= groups.len(),
    ensures
        listed(groups, low).len() <= listed(groups, high).len(),
    decreases high - low,
{
    if low < high {
        lemma_listed_monotone(groups, low, high - 1);
    }
}

proof fn lemma_listed_member(groups: Seq<GroupModel>, count: int, id: TraceId)
    requires
        0 <= count <= groups.len(),
        listed(groups, count).contains(id),
    ensures
        exists|i: int| 0 <= i < count && (#[trigger] groups[i]).members.contains(id),
    decreases count,
{
    if count > 0 {
        let before = listed(groups, count - 1);
        let k = choose|k: int| 0 <= k < listed(groups, count).len() && listed(groups, count)[k] == id;
        if k < before.len() {
            assert(before[k] == id);
            lemma_listed_member(groups, count - 1, id);
            let i = choose|i: int| 0 <= i < count - 1 && (#[trigger] groups[i]).members.contains(id);
            assert(groups[i].members.contains(id));
        } else {
            assert(groups[count - 1].members[k - before.len()] == id);
            assert(groups[count - 1].members.contains(id));
        }
    }
}

/// A plan that was made from requests passes the recheck that precedes every
/// run, as long as the run settings and the driver accept it.
pub proof fn law_requested_plans_are_valid(requests: Seq<TraceRequest>, checks: Checks)
    requires
        requests.len() > 0,
        first_request_fault(requests, requests.len() as int) is None,
        checks.run is None,
        checks.devices@.len() == grouped(requests, requests.len() as int).len(),
        forall|i: int| 0 <= i < checks.devices@.len() ==> checks.devices@[i] is None,
    ensures
        plan_fault(grouped(requests, requests.len() as int), checks) is None,
{
    let count = requests.len() as int;
    let groups = grouped(requests, count);
    lemma_faultless(requests, count);
    assert(request_fault(requests, count - 1) is None);
    law_groups_share_equal_requests(requests, count);
    lemma_grouped_nonempty(requests, count);
    lemma_listed_total(requests, count);
    assert forall|i: int| 0 <= i < groups.len() implies #[trigger] group_fault(
        groups,
        checks.device(i),
        i,
    ) is None by {
        lemma_group_accepted(requests, checks.device(i), i);
    }
    lemma_no_group_fault(groups, checks, groups.len() as int);
}

proof fn lemma_no_group_fault(groups: Seq<GroupModel>, checks: Checks, count: int)
    requires
        0 <= count <= groups.len(),
        forall|i: int|
            0 <= i < groups.len() ==> #[trigger] group_fault(groups, checks.device(i), i) is None,
    ensures
        first_group_fault(groups, checks, count) is None,
    decreases count,
{
    if count > 0 {
        lemma_no_group_fault(groups, checks, count - 1);
        assert(group_fault(groups, checks.device(count - 1), count - 1) is None);
    }
}

proof fn lemma_group_accepted(
    requests: Seq<TraceRequest>,
    device: Option<DeviceError>,
    index: int,
)
    requires
        first_request_fault(requests, requests.len() as int) is None,
        requests.len() <= MAX_TRACES,
        device is None,
        0 <= index < grouped(requests, requests.len() as int).len(),
    ensures
        group_fault(grouped(requests, requests.len() as int), device, index) is None,
{
    let count = requests.len() as int;
    let groups = grouped(requests, count);
    let group = groups[index];
    lemma_faultless(requests, count);
    law_groups_share_equal_requests(requests, count);
    lemma_ids_with(requests, count, group.settings);
    assert(group.members == ids_with(requests, count, group.settings));
    assert(asks(requests, count, group.settings, ids_with(requests, count, group.settings)[0]));
    let first = choose|i: int|
        0 <= i < count && requests[i].settings@ == group.settings && (#[trigger] requests[i]).id
            == ids_with(requests, count, group.settings)[0];
    assert(request_fault(requests, first) is None);
    assert(group.settings.fault(device) is None);
    if has_settings(groups.take(index), group.settings) {
        let at = choose|at: int|
            0 <= at < groups.take(index).len() && #[trigger] groups.take(index)[at].settings
                == group.settings;
        assert(groups[at].settings == group.settings);
    }
    assert forall|at: int| 0 <= at < group.members.len() implies !bad_member(groups, index, at) by {
        let id = group.members[at];
        assert(asks(requests, count, group.settings, ids_with(requests, count, group.settings)[at]));
        let own = choose|i: int|
            0 <= i < count && requests[i].settings@ == group.settings && (#[trigger] requests[i]).id
                == ids_with(requests, count, group.settings)[at];
        assert(request_fault(requests, own) is None);
        let earlier = listed(groups, index);
        let before = earlier + group.members.take(at);
        lemma_listed_total(requests, count);
        lemma_listed_monotone(groups, index + 1, groups.len() as int);
        assert(listed(groups, index + 1).len() == earlier.len() + group.members.len());
        if before.contains(id) {
            let k = choose|k: int| 0 <= k < before.len() && before[k] == id;
            if k < earlier.len() {
                assert(earlier[k] == id);
                lemma_listed_member(groups, index, id);
                let other = choose|i: int|
                    0 <= i < index && (#[trigger] groups[i]).members.contains(id);
                let place = choose|p: int|
                    0 <= p < groups[other].members.len() && groups[other].members[p] == id;
                lemma_ids_with(requests, count, groups[other].settings);
                assert(asks(
                    requests,
                    count,
                    groups[other].settings,
                    ids_with(requests, count, groups[other].settings)[place],
                ));
                let twin = choose|i: int|
                    0 <= i < count && requests[i].settings@ == groups[other].settings && (
                    #[trigger] requests[i]).id == ids_with(
                        requests,
                        count,
                        groups[other].settings,
                    )[place];
                assert(request_fault(requests, twin) is None);
                assert(requests[twin].id == requests[own].id);
                assert(twin == own);
                assert(false);
            } else {
                assert(group.members[k - earlier.len()] == id);
                assert(false);
            }
        }
    }
}

/// What the instrument is asked for names its own receiver, format and
/// conditions, whatever grid it is measured on.
pub proof fn law_conditions_are_kept(
    settings: &AcquisitionSettings,
    receiver: PointSettings,
    mode: StreamMode,
    format: &'static str,
    points: u32,
)
    requires
        call_ensures(AcquisitionSettings::receiver, (settings,), receiver),
        call_ensures(AcquisitionSettings::mode, (settings,), mode),
        call_ensures(AcquisitionSettings::format, (settings,), format),
        call_ensures(AcquisitionSettings::points, (settings,), points),
    ensures
        *settings matches AcquisitionSettings::S11(p) ==> receiver == (PointSettings::S11 {
            cal: p.cal,
            format: p.format,
            rbw: p.rbw,
        }) && mode is S11 && points == p.points,
        *settings matches AcquisitionSettings::S21(p) ==> receiver == (PointSettings::S21 {
            cal: p.cal,
            format: p.format,
            lo: p.lo,
            rbw: p.rbw,
        }) && mode is S21 && points == p.points,
        *settings matches AcquisitionSettings::Spec(p) ==> receiver == (PointSettings::Spec {
            cal: p.cal,
            lo: p.lo,
            rbw: p.rbw,
            ref_level_dbm: p.ref_level_dbm,
        }) && mode is Spec && format@ == ""@ && points == p.points,
        *settings matches AcquisitionSettings::Segments(plan) ==> receiver == plan.spec_settings()
            && points == plan.spec_acquired(),
        *settings matches AcquisitionSettings::List { settings: own, frequencies_hz }
            ==> receiver == own && (frequencies_hz@.len() <= 1001 ==> points
            == frequencies_hz@.len()),
        mode is S11 <==> receiver is S11,
        mode is S21 <==> receiver is S21,
        mode is Spec <==> receiver is Spec,
{
}

/// A complete sweep has the receiver and the format that were asked for, and as
/// many rows as points. Segments may share the points where they meet, so a row
/// less for each of them but the first is complete as well.
pub proof fn law_complete_sweeps_have_all_rows(
    settings: &AcquisitionSettings,
    data: &SweepData,
    mode: StreamMode,
    format: &'static str,
    accepted: bool,
)
    requires
        call_ensures(AcquisitionSettings::accepts, (settings, data), accepted),
        call_ensures(AcquisitionSettings::mode, (settings,), mode),
        call_ensures(AcquisitionSettings::format, (settings,), format),
    ensures
        accepted ==> data.mode == mode && data.format@ == format@,
        data.mode == mode && data.format@ == format@ ==> (match *settings {
            AcquisitionSettings::S11(p) => accepted <==> data.points@.len() == p.points,
            AcquisitionSettings::S21(p) => accepted <==> data.points@.len() == p.points,
            AcquisitionSettings::Spec(p) => accepted <==> data.points@.len() == p.points,
            AcquisitionSettings::Segments(plan) => accepted <==> plan.spec_acquired()
                - data.points@.len() <= plan.spec_segments().len() - 1 && data.points@.len()
                <= plan.spec_acquired(),
            AcquisitionSettings::List { frequencies_hz, .. } => frequencies_hz@.len() <= 1001 ==> (
            accepted <==> data.points@.len() == frequencies_hz@.len()),
        }),
{
}

/// A list is measured with 3 to 1001 frequencies that never go down. Then the
/// driver has its say, and a workspace needs a bandwidth. What passes all three
/// is accepted.
pub proof fn law_settings_are_checked_in_order(
    settings: &AcquisitionSettings,
    device: &Option<DeviceError>,
    result: Result<(), DeviceError>,
    receiver: PointSettings,
    rbw: Option<Rbw>,
)
    requires
        call_ensures(AcquisitionSettings::validate, (settings, device), result),
        call_ensures(AcquisitionSettings::receiver, (settings,), receiver),
        call_ensures(PointSettings::rbw, (&receiver,), rbw),
    ensures
        ({
            let bad_list = *settings is List && {
                let list = settings->frequencies_hz@;
                list.len() < 3 || list.len() > 1001 || exists|i: int, j: int|
                    0 <= i < j < list.len() && #[trigger] list[i] > #[trigger] list[j]
            };
            &&& bad_list ==> result == Err::<(), DeviceError>(
                DeviceError::InvalidParameter(Reason::FrequencyList),
            )
            &&& !bad_list && *device is Some ==> result == Err::<(), DeviceError>((*device)->0)
            &&& !bad_list && *device is None && rbw is None ==> result == Err::<(), DeviceError>(
                DeviceError::InvalidParameter(Reason::Bandwidth),
            )
            &&& !bad_list && *device is None && rbw is Some ==> result is Ok
        }),
{
    if *settings is List {
        let list = settings->frequencies_hz@;
        let bad = list.len() < 3 || list.len() > 1001 || exists|i: int, j: int|
            0 <= i < j < list.len() && #[trigger] list[i] > #[trigger] list[j];
        if !bad {
            assert forall|i: int, j: int| 0 <= i <= j < list.len() implies list[i] <= list[j] by {
                if i < j {
                    assert(!(list[i] > list[j]));
                }
            }
        } else if ascending_list(list) {
            let (i, j) = choose|i: int, j: int|
                0 <= i < j < list.len() && #[trigger] list[i] > #[trigger] list[j];
            assert(list[i] <= list[j]);
        }
    }
}

/// Two settings are the same where everything that is asked of the instrument
/// agrees.
pub proof fn law_equal_settings_ask_for_the_same(
    a: &AcquisitionSettings,
    b: &AcquisitionSettings,
    same: bool,
)
    requires
        call_ensures(AcquisitionSettings::same, (a, b), same),
    ensures
        *a is S11 && *b is S11 ==> (same <==> a->S11_0 == b->S11_0),
        *a is S21 && *b is S21 ==> (same <==> a->S21_0 == b->S21_0),
        *a is Spec && *b is Spec ==> (same <==> a->Spec_0 == b->Spec_0),
        *a is List && *b is List ==> (same <==> a->settings == b->settings && a->frequencies_hz@
            == b->frequencies_hz@),
        same ==> (*a is S11 <==> *b is S11) && (*a is S21 <==> *b is S21) && (*a is Spec
            <==> *b is Spec) && (*a is List <==> *b is List) && (*a is Segments
            <==> *b is Segments),
{
}

proof fn lemma_request_faults(requests: Seq<TraceRequest>, count: int)
    requires
        0 <= count <= requests.len(),
    ensures
        first_request_fault(requests, count) is None <==> forall|i: int|
            0 <= i < count ==> #[trigger] request_fault(requests, i) is None,
    decreases count,
{
    if count > 0 {
        lemma_request_faults(requests, count - 1);
        assert(request_fault(requests, count - 1) is None || request_fault(requests, count - 1) is Some);
    }
}

/// A plan is made of one to ten requests with numbers of their own, each of
/// which passes its check. It holds each trace once, and each kind of sweep
/// once: traces that ask for the same share it.
pub proof fn law_plans_share_matching_sweeps(
    requests: Vec<TraceRequest>,
    result: Result<SweepPlan, DeviceError>,
    i: int,
    j: int,
)
    requires
        call_ensures(SweepPlan::from_requests, (requests,), result),
        0 <= i < requests@.len(),
        0 <= j < requests@.len(),
    ensures
        result matches Ok(plan) ==> {
            &&& requests@.len() <= 10
            &&& requests@[i].id.0 != 0
            &&& i != j ==> requests@[i].id != requests@[j].id
            &&& requests@[i].settings@.fault(requests@[i].device) is None
            &&& exists|g: int|
                0 <= g < plan.groups@.len() && (#[trigger] plan.groups@[g]).settings@
                    == requests@[i].settings@ && plan.groups@[g].members@.contains(requests@[i].id)
            &&& forall|g: int, h: int|
                0 <= g < h < plan.groups@.len() ==> (#[trigger] plan.groups@[g]).settings@ != (
                #[trigger] plan.groups@[h]).settings@
            &&& plan.groups@.len() <= requests@.len()
            &&& plan.run.interval_ms == 0 && !plan.run.recording.enabled
        },
        requests@.len() <= 10 && (forall|k: int|
            0 <= k < requests@.len() ==> (#[trigger] requests@[k]).id.0 != 0
                && requests@[k].settings@.fault(requests@[k].device) is None) && (forall|
            k: int,
            l: int,
        |
            0 <= k < l < requests@.len() ==> (#[trigger] requests@[k]).id != (
            #[trigger] requests@[l]).id) ==> result is Ok,
{
    let all = requests@;
    let count = all.len() as int;
    lemma_request_faults(all, count);
    law_groups_share_equal_requests(all, count);
    if result is Ok {
        let plan = result->Ok_0;
        let groups = grouped(all, count);
        assert(plan.models() == groups);
        assert(groups.len() == plan.groups@.len());
        assert forall|g: int| 0 <= g < groups.len() implies (#[trigger] plan.groups@[g])@
            == groups[g] by {
            assert(group_models(plan.groups@)[g] == plan.groups@[g]@);
        }
        assert(request_fault(all, i) is None);
        assert(request_fault(all, j) is None);
        assert(request_fault(all, count - 1) is None);
        assert(has_settings(groups, all[i].settings@));
        let g = choose|g: int|
            0 <= g < groups.len() && #[trigger] groups[g].settings == all[i].settings@;
        lemma_ids_listed(all, count, all[i].settings@, i);
        assert(plan.groups@[g].settings@ == all[i].settings@);
        assert(groups[g].members == ids_with(all, count, all[i].settings@));
        assert(plan.groups@[g].members@.contains(all[i].id));
        assert forall|g: int, h: int| 0 <= g < h < plan.groups@.len() implies (
        #[trigger] plan.groups@[g]).settings@ != (#[trigger] plan.groups@[h]).settings@ by {
            assert(groups[g].settings != groups[h].settings);
        }
    }
    if all.len() <= 10 && (forall|k: int|
        0 <= k < all.len() ==> (#[trigger] all[k]).id.0 != 0 && all[k].settings@.fault(
            all[k].device,
        ) is None) && (forall|k: int, l: int|
        0 <= k < l < all.len() ==> (#[trigger] all[k]).id != (#[trigger] all[l]).id) {
        assert forall|k: int| 0 <= k < count implies #[trigger] request_fault(all, k) is None by {
            assert(all[k].id.0 != 0);
        }
    }
}

proof fn lemma_ids_listed(
    requests: Seq<TraceRequest>,
    count: int,
    settings: SettingsModel,
    i: int,
)
    requires
        0 <= i < count <= requests.len(),
        requests[i].settings@ == settings,
    ensures
        ids_with(requests, count, settings).contains(requests[i].id),
    decreases count,
{
    let after = ids_with(requests, count, settings);
    if i < count - 1 {
        lemma_ids_listed(requests, count - 1, settings, i);
        let before = ids_with(requests, count - 1, settings);
        let k = choose|k: int| 0 <= k < before.len() && before[k] == requests[i].id;
        assert(after[k] == requests[i].id);
    } else {
        assert(after[after.len() - 1] == requests[i].id);
    }
}

proof fn lemma_group_faults(groups: Seq<GroupModel>, checks: Checks, count: int, i: int)
    requires
        0 <= i < count <= groups.len(),
        first_group_fault(groups, checks, count) is None,
    ensures
        group_fault(groups, checks.device(i), i) is None,
    decreases count,
{
    if i < count - 1 {
        lemma_group_faults(groups, checks, count - 1, i);
    }
}

proof fn lemma_listed(groups: Seq<GroupModel>, count: int, g: int, id: TraceId)
    requires
        0 <= g < count <= groups.len(),
        groups[g].members.contains(id),
    ensures
        listed(groups, count).contains(id),
    decreases count,
{
    let before = listed(groups, count - 1);
    let last = groups[count - 1].members;
    if g < count - 1 {
        lemma_listed(groups, count - 1, g, id);
        let k = choose|k: int| 0 <= k < before.len() && before[k] == id;
        assert(listed(groups, count)[k] == id);
    } else {
        let k = choose|k: int| 0 <= k < last.len() && last[k] == id;
        assert(listed(groups, count)[before.len() + k] == id);
    }
}

/// A plan that passes the recheck has one to ten groups, each with members and
/// with conditions of its own that pass their check. No trace is listed twice,
/// and every number names one. What the run settings object to comes first.
pub proof fn law_valid_plans_hold_each_trace_once(
    plan: &SweepPlan,
    checks: &Checks,
    result: Result<(), DeviceError>,
    g: int,
    h: int,
    at: int,
    other: int,
)
    requires
        checks.devices@.len() == plan.groups@.len(),
        call_ensures(SweepPlan::validate, (plan, checks), result),
    ensures
        checks.run is Some ==> result == Err::<(), DeviceError>(
            DeviceError::InvalidParameter(Reason::Other(checks.run->0)),
        ),
        checks.run is None && (plan.groups@.len() == 0 || plan.groups@.len() > 10) ==> result
            == Err::<(), DeviceError>(DeviceError::InvalidParameter(Reason::VisibleTraces)),
        result is Ok ==> 1 <= plan.groups@.len() <= 10 && checks.run is None,
        result is Ok && 0 <= g < plan.groups@.len() ==> plan.groups@[g].members@.len() > 0
            && plan.groups@[g].settings@.fault(checks.devices@[g]) is None,
        result is Ok && 0 <= g < h < plan.groups@.len() ==> plan.groups@[g].settings@
            != plan.groups@[h].settings@,
        result is Ok && 0 <= g < plan.groups@.len() && 0 <= at < plan.groups@[g].members@.len()
            ==> plan.groups@[g].members@[at].0 != 0,
        result is Ok && 0 <= g < plan.groups@.len() && 0 <= at < other
            < plan.groups@[g].members@.len() ==> plan.groups@[g].members@[at]
            != plan.groups@[g].members@[other],
        result is Ok && 0 <= g < h < plan.groups@.len() && 0 <= at < plan.groups@[g].members@.len()
            && 0 <= other < plan.groups@[h].members@.len() ==> plan.groups@[g].members@[at]
            != plan.groups@[h].members@[other],
{
    let groups = plan.models();
    assert(groups.len() == plan.groups@.len());
    if result is Ok {
        let count = groups.len() as int;
        if 0 <= g < count {
            assert(groups[g] == plan.groups@[g]@);
            lemma_group_faults(groups, *checks, count, g);
            if 0 <= at < groups[g].members.len() {
                assert(!bad_member(groups, g, at));
                if at < other < groups[g].members.len() {
                    assert(!bad_member(groups, g, other));
                    let before = listed(groups, g) + groups[g].members.take(other);
                    let place = listed(groups, g).len() + at;
                    assert(before[place] == groups[g].members[at]);
                    assert(before.contains(groups[g].members[at]));
                }
            }
            if g < h < count {
                assert(groups[h] == plan.groups@[h]@);
                lemma_group_faults(groups, *checks, count, h);
                assert(groups.take(h)[g] == groups[g]);
                if groups[g].settings == groups[h].settings {
                    assert(groups.take(h)[g].settings == groups[h].settings);
                    assert(has_settings(groups.take(h), groups[h].settings));
                }
                if 0 <= at < groups[g].members.len() && 0 <= other < groups[h].members.len() {
                    assert(!bad_member(groups, h, other));
                    let id = groups[g].members[at];
                    assert(groups[g].members.contains(id));
                    lemma_listed(groups, h, g, id);
                    let first = listed(groups, h);
                    let k = choose|k: int| 0 <= k < first.len() && first[k] == id;
                    let before = first + groups[h].members.take(other);
                    assert(before[k] == id);
                    assert(before.contains(id));
                }
            }
        }
    }
}

/// A completed sweep is accepted where its rows are complete under the recorded
/// conditions, and where it tells of its spans exactly if it was segmented.
pub proof fn law_completed_sweeps_fit_their_conditions(
    sweep: &CompletedSweep,
    accepted: bool,
    complete: bool,
)
    requires
        call_ensures(CompletedSweep::accepts_data, (sweep,), accepted),
        call_ensures(AcquisitionSettings::accepts, (&sweep.settings, &sweep.data), complete),
    ensures
        accepted <==> complete && (sweep.segments is Some <==> sweep.settings is Segments) && (
        sweep.segments matches Some(spans) ==> spans.consistent),
{
}

/// A fresh run repeats without a pause and records nothing.
pub proof fn law_new_runs_record_nothing(run: RunSettings)
    requires
        run.is_plain(),
    ensures
        run.interval_ms == 0 && run.interval_unit is Milliseconds,
        !run.recording.enabled,
        run.recording.directory@.len() == 0,
        run.recording.retention is KeepAll,
        run.recording.format is Csv,
{
}

/// Lists agree element by element, and a member is one that stands somewhere.
pub proof fn law_lists_agree_everywhere(
    a: &Vec<u64>,
    b: &Vec<u64>,
    same: bool,
    ids: &Vec<TraceId>,
    id: TraceId,
    found: bool,
    i: int,
)
    requires
        call_ensures(same_frequencies, (a, b), same),
        call_ensures(contains_id, (ids, id), found),
    ensures
        same ==> a@.len() == b@.len(),
        same && 0 <= i < a@.len() ==> a@[i] == b@[i],
        a@.len() == b@.len() && (forall|k: int| 0 <= k < a@.len() ==> #[trigger] a@[k] == b@[k])
            ==> same,
        0 <= i < ids@.len() && ids@[i] == id ==> found,
        (forall|k: int| 0 <= k < ids@.len() ==> #[trigger] ids@[k] != id) ==> !found,
{
    if a@.len() == b@.len() && (forall|k: int| 0 <= k < a@.len() ==> #[trigger] a@[k] == b@[k]) {
        assert(a@ =~= b@);
    }
}

/// The instrument's verdict on a group is the one at its place, and none is an
/// acceptance.
pub proof fn law_verdicts_stand_at_their_place(
    checks: &Checks,
    index: usize,
    verdict: Option<DeviceError>,
    accepted: bool,
)
    requires
        index < checks.devices@.len(),
        call_ensures(Checks::device_verdict, (checks, index), verdict),
        call_ensures(Checks::device_accepts, (checks, index), accepted),
    ensures
        verdict == checks.devices@[index as int],
        accepted <==> checks.devices@[index as int] is None,
{
}

} // verus!
