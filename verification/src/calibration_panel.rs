//! Explicit calibration consent and packet-driven steps of the wizard.

use vstd::prelude::*;

use crate::acquisition::TraceId;
use crate::messages::{
    ConnectionState, InstrumentFunction, Message, StatusMessage, WorkerCommand,
};
use crate::model::{
    CalibrationKind, CalibrationParams, CalibrationPhase, CalibrationPrompt, CalibrationReport,
    Rbw, StreamMode, UserCalibrationParams,
};
use crate::text::{Caption, Language, Text};
use crate::workspace::{AppMode, SweepMode, TraceState};

verus! {

/// What will be calibrated, taken down when the user moves on.
#[derive(Debug, Clone, Copy, PartialEq, Eq, Structural)]
pub struct FrozenCalibration {
    pub params: CalibrationParams,
    pub trace_id: Option<TraceId>,
}

/// A control request that was not answered yet.
#[derive(Debug, Clone, Copy, PartialEq, Eq, Structural)]
pub enum Pending {
    Start,
    Advance,
    Cancel,
}

/// State of the calibration wizard.
#[derive(Debug)]
pub struct CalibrationUi {
    pub open: bool,
    pub selected: Option<CalibrationKind>,
    pub frozen: Option<FrozenCalibration>,
    pub consent: bool,
    pub report: CalibrationReport,
    pub pending: Option<Pending>,
    pub error: Option<StatusMessage>,
    pub completed_standards: usize,
    pub current_prompt: Option<CalibrationPrompt>,
}

impl Default for CalibrationUi {
    fn default() -> (ui: Self)
        ensures
            ui == CalibrationUi::fresh(),
    {
        CalibrationUi {
            open: false,
            selected: None,
            frozen: None,
            consent: false,
            report: CalibrationReport::default(),
            pending: None,
            error: None,
            completed_standards: 0,
            current_prompt: None,
        }
    }
}

/// The mode whose measurements a calibration changes.
pub open spec fn mode_of(kind: CalibrationKind) -> AppMode {
    match kind {
        CalibrationKind::S11System | CalibrationKind::S11User => AppMode::S11,
        CalibrationKind::S21System | CalibrationKind::S21User => AppMode::S21,
    }
}

pub fn affected_mode(kind: CalibrationKind) -> (mode: AppMode)
    ensures
        mode == mode_of(kind),
{
    match kind {
        CalibrationKind::S11System | CalibrationKind::S11User => AppMode::S11,
        CalibrationKind::S21System | CalibrationKind::S21User => AppMode::S21,
    }
}

pub open spec fn kind_key(kind: CalibrationKind) -> Text {
    match kind {
        CalibrationKind::S11System => Text::CalibrationS11System,
        CalibrationKind::S21System => Text::CalibrationS21System,
        CalibrationKind::S11User => Text::CalibrationS11User,
        CalibrationKind::S21User => Text::CalibrationS21User,
    }
}

/// Caption of a kind of calibration.
pub fn kind_text(kind: CalibrationKind) -> (key: Text)
    ensures
        key == kind_key(kind),
{
    match kind {
        CalibrationKind::S11System => Text::CalibrationS11System,
        CalibrationKind::S21System => Text::CalibrationS21System,
        CalibrationKind::S11User => Text::CalibrationS11User,
        CalibrationKind::S21User => Text::CalibrationS21User,
    }
}

pub open spec fn phase_key(phase: CalibrationPhase) -> Text {
    match phase {
        CalibrationPhase::NotStarted => Text::SourceNotStarted,
        CalibrationPhase::AwaitingConfirmation => Text::CalibrationStarting,
        CalibrationPhase::WarmingUp => Text::CalibrationWarming,
        CalibrationPhase::Prompt(CalibrationPrompt::Short) => Text::CalibrationShort,
        CalibrationPhase::Prompt(CalibrationPrompt::Open) => Text::CalibrationOpen,
        CalibrationPhase::Prompt(CalibrationPrompt::Load) => Text::CalibrationLoad,
        CalibrationPhase::Prompt(CalibrationPrompt::Through) => Text::CalibrationThrough,
        CalibrationPhase::Measuring => Text::CalibrationMeasuring,
        CalibrationPhase::Processing => Text::CalibrationProcessing,
        CalibrationPhase::Saving => Text::CalibrationSaving,
        CalibrationPhase::Completed => Text::CalibrationCompleted,
        CalibrationPhase::Cancelled => Text::CalibrationCancelled,
        CalibrationPhase::Unknown => Text::CalibrationUnknown,
    }
}

/// Caption of a phase.
pub fn phase_text(phase: CalibrationPhase) -> (key: Text)
    ensures
        key == phase_key(phase),
{
    match phase {
        CalibrationPhase::NotStarted => Text::SourceNotStarted,
        CalibrationPhase::AwaitingConfirmation => Text::CalibrationStarting,
        CalibrationPhase::WarmingUp => Text::CalibrationWarming,
        CalibrationPhase::Prompt(CalibrationPrompt::Short) => Text::CalibrationShort,
        CalibrationPhase::Prompt(CalibrationPrompt::Open) => Text::CalibrationOpen,
        CalibrationPhase::Prompt(CalibrationPrompt::Load) => Text::CalibrationLoad,
        CalibrationPhase::Prompt(CalibrationPrompt::Through) => Text::CalibrationThrough,
        CalibrationPhase::Measuring => Text::CalibrationMeasuring,
        CalibrationPhase::Processing => Text::CalibrationProcessing,
        CalibrationPhase::Saving => Text::CalibrationSaving,
        CalibrationPhase::Completed => Text::CalibrationCompleted,
        CalibrationPhase::Cancelled => Text::CalibrationCancelled,
        CalibrationPhase::Unknown => Text::CalibrationUnknown,
    }
}

/// The standards of a calibration in the order in which they are measured.
pub open spec fn standards(kind: CalibrationKind) -> Seq<CalibrationPrompt> {
    match kind {
        CalibrationKind::S11System | CalibrationKind::S11User => seq![
            CalibrationPrompt::Short,
            CalibrationPrompt::Open,
            CalibrationPrompt::Load,
        ],
        CalibrationKind::S21System | CalibrationKind::S21User => seq![CalibrationPrompt::Through],
    }
}

pub fn standard_prompts(kind: CalibrationKind) -> (prompts: Vec<CalibrationPrompt>)
    ensures
        prompts@ == standards(kind),
{
    let prompts: Vec<CalibrationPrompt> = match kind {
        CalibrationKind::S11System | CalibrationKind::S11User => vec![
            CalibrationPrompt::Short,
            CalibrationPrompt::Open,
            CalibrationPrompt::Load,
        ],
        CalibrationKind::S21System | CalibrationKind::S21User => vec![CalibrationPrompt::Through],
    };
    assert(prompts@ =~= standards(kind));
    prompts
}

/// All kinds in the order in which they are offered.
pub open spec fn all_kinds() -> Seq<CalibrationKind> {
    seq![
        CalibrationKind::S11System,
        CalibrationKind::S21System,
        CalibrationKind::S11User,
        CalibrationKind::S21User,
    ]
}

/// Whether a kind is offered at all. A source has no range of its own.
pub open spec fn offered(kind: CalibrationKind, function: InstrumentFunction) -> bool {
    !(kind.spec_is_user() && function.spec_kind() is Some)
}

/// The first `count` kinds without those that are not offered.
pub open spec fn offers(function: InstrumentFunction, count: int) -> Seq<CalibrationKind>
    decreases count,
{
    if count <= 0 {
        seq![]
    } else if offered(all_kinds()[count - 1], function) {
        offers(function, count - 1).push(all_kinds()[count - 1])
    } else {
        offers(function, count - 1)
    }
}

/// The kinds that the wizard offers.
pub fn offered_kinds(function: InstrumentFunction) -> (kinds: Vec<CalibrationKind>)
    ensures
        kinds@ == offers(function, 4),
{
    let all: Vec<CalibrationKind> = vec![
        CalibrationKind::S11System,
        CalibrationKind::S21System,
        CalibrationKind::S11User,
        CalibrationKind::S21User,
    ];
    assert(all@ =~= all_kinds());
    let mut kinds: Vec<CalibrationKind> = Vec::new();
    let mut index: usize = 0;
    assert(kinds@ =~= offers(function, 0));
    while index < all.len()
        invariant
            index <= all@.len() == 4,
            all@ == all_kinds(),
            kinds@ == offers(function, index as int),
        decreases all@.len() - index,
    {
        let kind: CalibrationKind = all[index];
        if !(kind.is_user() && function.kind().is_some()) {
            kinds.push(kind);
        }
        index = index + 1;
    }
    kinds
}

/// What the workspace gives to a user's own calibration.
#[derive(Debug)]
pub struct CalibrationSource<'a> {
    pub function: InstrumentFunction,
    pub sweep_mode: SweepMode,
    pub selected: Option<&'a TraceState>,
    pub points: u32,
    /// Centre and span that the driver makes of the range, or its objection.
    pub range: Result<(u64, u64), String>,
    /// The driver's objection to the parameters.
    pub device: Option<String>,
}

/// A message in the driver's own words.
pub open spec fn driver_words(words: String) -> StatusMessage {
    StatusMessage::Message(Message::Other(words))
}

impl<'a> CalibrationSource<'a> {
    /// What would be calibrated, or why it cannot be.
    pub open spec fn frozen(self, kind: CalibrationKind) -> Result<FrozenCalibration, StatusMessage> {
        if !kind.spec_is_user() {
            match self.device {
                Some(words) => Err(driver_words(words)),
                None => Ok(
                    FrozenCalibration {
                        params: if kind is S11System {
                            CalibrationParams::S11System
                        } else {
                            CalibrationParams::S21System
                        },
                        trace_id: None,
                    },
                ),
            }
        } else if self.function.spec_kind() is Some {
            Err(StatusMessage::Text(Text::CalibrationMeasurementsOnly))
        } else if !(self.sweep_mode is Range) {
            Err(StatusMessage::Text(Text::CalibrationContinuousOnly))
        } else {
            match self.selected {
                None => Err(StatusMessage::Text(Text::CalibrationSelectTrace)),
                Some(trace) => if trace.settings.display.spec_mode() != mode_of(kind) {
                    Err(StatusMessage::Text(Text::CalibrationSelectTrace))
                } else {
                    match self.range {
                        Err(words) => Err(driver_words(words)),
                        Ok((center_hz, span_hz)) => {
                            let user = UserCalibrationParams {
                                center_hz,
                                span_hz,
                                points: self.points,
                                rbw: trace.settings.rbw,
                            };
                            match self.device {
                                Some(words) => Err(driver_words(words)),
                                None => Ok(
                                    FrozenCalibration {
                                        params: if kind is S11User {
                                            CalibrationParams::S11User(user)
                                        } else {
                                            CalibrationParams::S21User(user)
                                        },
                                        trace_id: Some(trace.id),
                                    },
                                ),
                            }
                        },
                    }
                },
            }
        }
    }

    /// Take down what would be calibrated. A range of the user's own needs a
    /// continuous sweep and a selected trace of the same quantity.
    pub fn freeze(&self, kind: CalibrationKind) -> (result: Result<FrozenCalibration, StatusMessage>)
        ensures
            result == self.frozen(kind),
    {
        let mut trace_id: Option<TraceId> = None;
        let params = match kind {
            CalibrationKind::S11System => CalibrationParams::S11System,
            CalibrationKind::S21System => CalibrationParams::S21System,
            CalibrationKind::S11User | CalibrationKind::S21User => {
                if self.function.kind().is_some() {
                    return Err(StatusMessage::Text(Text::CalibrationMeasurementsOnly));
                }
                if self.sweep_mode != SweepMode::Range {
                    return Err(StatusMessage::Text(Text::CalibrationContinuousOnly));
                }
                let Some(trace) = self.selected else {
                    return Err(StatusMessage::Text(Text::CalibrationSelectTrace));
                };
                if trace.settings.display.mode() != affected_mode(kind) {
                    return Err(StatusMessage::Text(Text::CalibrationSelectTrace));
                }
                let (center_hz, span_hz): (u64, u64) = match &self.range {
                    Ok(range) => *range,
                    Err(words) => {
                        return Err(StatusMessage::Message(Message::Other(words.clone())));
                    },
                };
                let rbw: Rbw = trace.settings.rbw;
                trace_id = Some(trace.id);
                let user = UserCalibrationParams { center_hz, span_hz, points: self.points, rbw };
                if matches!(kind, CalibrationKind::S11User) {
                    CalibrationParams::S11User(user)
                } else {
                    CalibrationParams::S21User(user)
                }
            },
        };
        if let Some(words) = &self.device {
            return Err(StatusMessage::Message(Message::Other(words.clone())));
        }
        Ok(FrozenCalibration { params, trace_id })
    }
}

/// Which page of the wizard is shown.
#[derive(Debug, Clone, Copy, PartialEq, Eq, Structural)]
pub enum WizardPage {
    Choose,
    Review,
    Progress,
}

/// What the progress page shows.
#[derive(Debug, Clone, Copy, PartialEq, Eq)]
pub struct Progress {
    pub spinner: bool,
    pub connect_help: bool,
    pub note: Option<Text>,
    /// The standard that can be confirmed, and whether it can be now.
    pub next: Option<(bool, CalibrationPrompt)>,
    /// Whether a running calibration can be cancelled, if one runs.
    pub cancel: Option<bool>,
}

/// A control of the wizard.
#[derive(Debug, Clone, Copy, PartialEq, Eq, Structural)]
pub enum WizardAction {
    Select(CalibrationKind),
    Next,
    Consent(bool),
    Start,
    Back,
    Advance,
    Cancel,
    New,
    /// The window is closed by a button or by the escape key.
    Close,
}

/// How a step of a calibration is marked.
pub open spec fn step_status(ui: CalibrationUi, index: int, prompt: CalibrationPrompt) -> Text {
    if index < ui.completed_standards {
        Text::CalibrationStepDone
    } else if ui.current_prompt == Some(prompt) {
        if ui.report.phase is Unknown || ui.report.phase is Cancelled {
            Text::CalibrationStepInterrupted
        } else {
            Text::CalibrationStepCurrent
        }
    } else {
        Text::CalibrationStepPending
    }
}

impl CalibrationUi {
    /// A wizard that was never opened.
    pub open spec fn fresh() -> CalibrationUi {
        CalibrationUi {
            open: false,
            selected: None,
            frozen: None,
            consent: false,
            report: CalibrationReport { kind: None, phase: CalibrationPhase::NotStarted },
            pending: None,
            error: None,
            completed_standards: 0,
            current_prompt: None,
        }
    }

    pub open spec fn spec_busy(self) -> bool {
        self.pending is Some || self.report.active()
    }

    pub fn busy(&self) -> (busy: bool)
        ensures
            busy == self.spec_busy(),
    {
        self.pending.is_some() || self.report.is_active()
    }

    /// The wizard after it was opened. Consent given before does not last.
    pub open spec fn opened(self) -> Self {
        CalibrationUi {
            open: true,
            consent: self.consent && !(self.report.phase is NotStarted && !self.spec_busy()),
            ..self
        }
    }

    pub fn open(&mut self)
        ensures
            *final(self) == old(self).opened(),
    {
        self.open = true;
        if matches!(self.report.phase, CalibrationPhase::NotStarted) && !self.busy() {
            self.consent = false;
        }
    }

    /// The wizard after a calibration was asked for. What was frozen stays where
    /// it is what is asked for.
    pub open spec fn begun(self, params: CalibrationParams) -> Self {
        CalibrationUi {
            open: true,
            frozen: if self.frozen is Some && self.frozen->0.params == params {
                self.frozen
            } else {
                Some(FrozenCalibration { params, trace_id: None })
            },
            report: CalibrationReport {
                kind: Some(params.spec_kind()),
                phase: CalibrationPhase::NotStarted,
            },
            pending: Some(Pending::Start),
            error: None,
            completed_standards: 0,
            current_prompt: None,
            ..self
        }
    }

    /// A calibration was asked for.
    pub fn begin(&mut self, params: CalibrationParams)
        ensures
            *final(self) == old(self).begun(params),
    {
        let kept = match self.frozen {
            Some(frozen) => frozen.params == params,
            None => false,
        };
        if !kept {
            self.frozen = Some(FrozenCalibration { params, trace_id: None });
        }
        self.open = true;
        self.pending = Some(Pending::Start);
        self.error = None;
        self.completed_standards = 0;
        self.current_prompt = None;
        self.report = CalibrationReport {
            kind: Some(params.kind()),
            phase: CalibrationPhase::NotStarted,
        };
    }

    /// A report with the kind that it belongs to. One of an unknown phase may
    /// come without.
    pub open spec fn completed_report(self, report: CalibrationReport) -> CalibrationReport {
        if report.kind is None && report.phase is Unknown {
            CalibrationReport { kind: self.report.kind, phase: report.phase }
        } else {
            report
        }
    }

    /// Whether a report belongs to what was asked for.
    pub open spec fn expects(self, report: CalibrationReport) -> bool {
        self.frozen is Some && self.completed_report(report).kind == Some(
            self.frozen->0.params.spec_kind(),
        )
    }

    /// Whether this is the wizard after a report. One that does not belong to
    /// what was asked for changes nothing. A standard's prompt completes the
    /// standards before it, and the end completes all.
    pub open spec fn is_accepted(self, before: Self, report: CalibrationReport) -> bool {
        let prompts = standards(before.frozen->0.params.spec_kind());
        if !before.expects(report) {
            self == before
        } else {
            &&& self == (CalibrationUi {
                report: before.completed_report(report),
                pending: None,
                completed_standards: self.completed_standards,
                current_prompt: self.current_prompt,
                ..before
            })
            &&& match report.phase {
                CalibrationPhase::Prompt(prompt) => if prompts.contains(prompt) {
                    &&& self.current_prompt == Some(prompt)
                    &&& self.completed_standards < prompts.len()
                    &&& prompts[self.completed_standards as int] == prompt
                } else {
                    &&& self.current_prompt == before.current_prompt
                    &&& self.completed_standards == before.completed_standards
                },
                CalibrationPhase::Completed => {
                    &&& self.current_prompt is None
                    &&& self.completed_standards == prompts.len()
                },
                _ => {
                    &&& self.current_prompt == before.current_prompt
                    &&& self.completed_standards == before.completed_standards
                },
            }
        }
    }

    /// Take over what the instrument reports. Only it completes steps.
    pub fn accept(&mut self, report: CalibrationReport)
        ensures
            final(self).is_accepted(*old(self), report),
    {
        let mut taken: CalibrationReport = report;
        if taken.kind.is_none() && matches!(taken.phase, CalibrationPhase::Unknown) {
            taken.kind = self.report.kind;
        }
        let Some(frozen) = self.frozen else {
            return;
        };
        if taken.kind != Some(frozen.params.kind()) {
            return;
        }
        let prompts = standard_prompts(frozen.params.kind());
        match taken.phase {
            CalibrationPhase::Prompt(prompt) => {
                let mut index: usize = 0;
                let mut found: Option<usize> = None;
                while index < prompts.len() && found.is_none()
                    invariant
                        index <= prompts@.len(),
                        found is None ==> forall|i: int| 0 <= i < index ==> prompts@[i] != prompt,
                        found matches Some(at) ==> at < prompts@.len() && prompts@[at as int]
                            == prompt,
                    decreases prompts@.len() - index,
                {
                    if prompts[index] == prompt {
                        found = Some(index);
                    }
                    index = index + 1;
                }
                if let Some(at) = found {
                    self.completed_standards = at;
                    self.current_prompt = Some(prompt);
                }
            },
            CalibrationPhase::Completed => {
                self.completed_standards = prompts.len();
                self.current_prompt = None;
            },
            _ => {},
        }
        self.report = taken;
        self.pending = None;
    }

    /// The wizard after the link is gone: what a calibration under way has done
    /// is unknown.
    pub open spec fn after_loss(self) -> Self {
        if self.spec_busy() {
            CalibrationUi {
                open: true,
                report: CalibrationReport {
                    kind: self.report.kind,
                    phase: CalibrationPhase::Unknown,
                },
                pending: None,
                ..self
            }
        } else {
            CalibrationUi { pending: None, ..self }
        }
    }

    /// The link is gone.
    pub fn lost(&mut self)
        ensures
            *final(self) == old(self).after_loss(),
    {
        if self.busy() {
            self.report.phase = CalibrationPhase::Unknown;
            self.open = true;
        }
        self.pending = None;
    }

    /// The wizard after a request failed: an open one shows why, and a request
    /// that waits for an answer gets none.
    pub open spec fn after_failure(self, message: Message) -> Self {
        let told = CalibrationUi {
            error: if self.open && self.frozen is Some {
                Some(StatusMessage::Message(message))
            } else {
                self.error
            },
            ..self
        };
        if self.pending is Some {
            told.after_loss()
        } else {
            told
        }
    }

    /// A request failed.
    pub fn request_failed(&mut self, message: &Message)
        ensures
            *final(self) == old(self).after_failure(*message),
    {
        if self.open && self.frozen.is_some() {
            self.error = Some(StatusMessage::Message(message.clone()));
        }
        if self.pending.is_some() {
            self.lost();
        }
    }

    pub open spec fn label_key(self) -> Text {
        match self.pending {
            Some(Pending::Start) => Text::CalibrationStarting,
            Some(Pending::Advance) => Text::CalibrationMeasuring,
            Some(Pending::Cancel) => Text::CalibrationCancelling,
            None => phase_key(self.report.phase),
        }
    }

    /// Where the calibration stands.
    pub fn label(&self, language: Language) -> (caption: Caption)
        ensures
            caption == (Caption::Entry { language, key: self.label_key() }),
    {
        language.text(
            match self.pending {
                Some(Pending::Start) => Text::CalibrationStarting,
                Some(Pending::Advance) => Text::CalibrationMeasuring,
                Some(Pending::Cancel) => Text::CalibrationCancelling,
                None => phase_text(self.report.phase),
            },
        )
    }

    /// The steps with their marks.
    pub fn step_rows(&self) -> (rows: Vec<(CalibrationPrompt, Text)>)
        ensures
            match self.frozen {
                None => rows@.len() == 0,
                Some(frozen) => rows@ == standards(frozen.params.spec_kind()).map(
                    |i: int, prompt: CalibrationPrompt| (prompt, step_status(*self, i, prompt)),
                ),
            },
    {
        let mut rows: Vec<(CalibrationPrompt, Text)> = Vec::new();
        let Some(frozen) = self.frozen else {
            return rows;
        };
        let prompts = standard_prompts(frozen.params.kind());
        let mut index: usize = 0;
        while index < prompts.len()
            invariant
                index <= prompts@.len(),
                rows@.len() == index,
                forall|i: int|
                    0 <= i < index ==> #[trigger] rows@[i] == (
                        prompts@[i],
                        step_status(*self, i, prompts@[i]),
                    ),
            decreases prompts@.len() - index,
        {
            let prompt: CalibrationPrompt = prompts[index];
            let status = if index < self.completed_standards {
                Text::CalibrationStepDone
            } else if self.current_prompt == Some(prompt) {
                if matches!(
                    self.report.phase,
                    CalibrationPhase::Unknown | CalibrationPhase::Cancelled
                ) {
                    Text::CalibrationStepInterrupted
                } else {
                    Text::CalibrationStepCurrent
                }
            } else {
                Text::CalibrationStepPending
            };
            rows.push((prompt, status));
            index = index + 1;
        }
        assert(rows@ =~= standards(frozen.params.spec_kind()).map(
            |i: int, prompt: CalibrationPrompt| (prompt, step_status(*self, i, prompt)),
        ));
        rows
    }

    pub open spec fn spec_page(self) -> WizardPage {
        if self.frozen is None {
            WizardPage::Choose
        } else if self.report.phase is NotStarted && self.pending is None {
            WizardPage::Review
        } else {
            WizardPage::Progress
        }
    }

    pub fn page(&self) -> (page: WizardPage)
        ensures
            page == self.spec_page(),
    {
        if self.frozen.is_none() {
            WizardPage::Choose
        } else if matches!(self.report.phase, CalibrationPhase::NotStarted)
            && self.pending.is_none() {
            WizardPage::Review
        } else {
            WizardPage::Progress
        }
    }

    pub open spec fn spec_progress(self) -> Progress {
        Progress {
            spinner: self.spec_busy() && !(self.report.phase is Prompt),
            connect_help: self.report.phase is Prompt && self.pending is None,
            note: match self.report.phase {
                CalibrationPhase::Completed => Some(Text::CalibrationReacquire),
                CalibrationPhase::Cancelled | CalibrationPhase::Unknown => Some(
                    Text::CalibrationChanged,
                ),
                _ => None,
            },
            next: match self.report.phase {
                CalibrationPhase::Prompt(prompt) => if self.spec_busy() {
                    Some((self.pending is None, prompt))
                } else {
                    None
                },
                _ => None,
            },
            cancel: if self.spec_busy() {
                Some(self.pending != Some(Pending::Cancel))
            } else {
                None
            },
        }
    }

    /// What the progress page shows.
    pub fn progress(&self) -> (progress: Progress)
        ensures
            progress == self.spec_progress(),
    {
        let busy = self.busy();
        Progress {
            spinner: busy && !matches!(self.report.phase, CalibrationPhase::Prompt(_)),
            connect_help: matches!(self.report.phase, CalibrationPhase::Prompt(_))
                && self.pending.is_none(),
            note: match self.report.phase {
                CalibrationPhase::Completed => Some(Text::CalibrationReacquire),
                CalibrationPhase::Cancelled | CalibrationPhase::Unknown => Some(
                    Text::CalibrationChanged,
                ),
                _ => None,
            },
            next: match self.report.phase {
                CalibrationPhase::Prompt(prompt) => {
                    if busy {
                        Some((self.pending.is_none(), prompt))
                    } else {
                        None
                    }
                },
                _ => None,
            },
            cancel: if busy {
                Some(self.pending != Some(Pending::Cancel))
            } else {
                None
            },
        }
    }

    /// Whether the calibration can be started from the review page.
    pub open spec fn startable(self, connection: ConnectionState, source_busy: bool) -> bool {
        self.consent && connection is Connected && !source_busy
    }

    /// Whether the calibration can be started from the review page, and what
    /// stands in its way.
    pub fn review(&self, connection: &ConnectionState, source_busy: bool) -> (review: (
        bool,
        Option<Text>,
    ))
        ensures
            review == (
                self.startable(*connection, source_busy),
                if source_busy {
                    Some(Text::CalibrationStopSource)
                } else if !(*connection is Connected) {
                    Some(Text::DeviceInfoUnavailable)
                } else {
                    None
                },
            ),
    {
        let connected = connection.is_connected();
        (
            self.consent && connected && !source_busy,
            if source_busy {
                Some(Text::CalibrationStopSource)
            } else if !connected {
                Some(Text::DeviceInfoUnavailable)
            } else {
                None
            },
        )
    }

    /// The wizard and the command after its window is closed. A calibration
    /// under way is cancelled first and keeps the window open.
    pub open spec fn closed(self) -> (CalibrationUi, Option<WorkerCommand>) {
        if self.spec_busy() {
            (
                self,
                if self.pending != Some(Pending::Cancel) {
                    Some(WorkerCommand::CancelCalibration)
                } else {
                    None
                },
            )
        } else {
            (CalibrationUi { open: false, consent: false, ..self }, None)
        }
    }

    /// The wizard and the command after the user uses a control. One that is
    /// not offered at the moment does nothing.
    pub open spec fn acted(
        self,
        action: WizardAction,
        source: CalibrationSource,
        connection: ConnectionState,
        source_busy: bool,
    ) -> (CalibrationUi, Option<WorkerCommand>) {
        let nothing = (self, None::<WorkerCommand>);
        match action {
            WizardAction::Close => self.closed(),
            WizardAction::Select(kind) => if self.spec_page() is Choose && offered(
                kind,
                source.function,
            ) && source.frozen(kind) is Ok {
                (CalibrationUi { selected: Some(kind), ..self }, None)
            } else {
                nothing
            },
            WizardAction::Next => if self.spec_page() is Choose && self.selected is Some {
                match source.frozen(self.selected->0) {
                    Ok(frozen) => (
                        CalibrationUi { frozen: Some(frozen), consent: false, ..self },
                        None,
                    ),
                    Err(error) => (CalibrationUi { error: Some(error), ..self }, None),
                }
            } else {
                nothing
            },
            WizardAction::Consent(consent) => if self.spec_page() is Review {
                (CalibrationUi { consent, ..self }, None)
            } else {
                nothing
            },
            WizardAction::Start => if self.spec_page() is Review && self.startable(
                connection,
                source_busy,
            ) {
                (self, Some(WorkerCommand::StartCalibration(self.frozen->0.params)))
            } else {
                nothing
            },
            WizardAction::Back => if self.spec_page() is Review {
                (CalibrationUi { frozen: None, consent: false, ..self }, None)
            } else {
                nothing
            },
            WizardAction::Advance => if self.spec_page() is Progress {
                match self.spec_progress().next {
                    Some((true, prompt)) => (
                        self,
                        Some(WorkerCommand::AdvanceCalibration(prompt)),
                    ),
                    _ => nothing,
                }
            } else {
                nothing
            },
            WizardAction::Cancel => if self.spec_page() is Progress && self.spec_progress().cancel
                == Some(true) {
                (self, Some(WorkerCommand::CancelCalibration))
            } else {
                nothing
            },
            WizardAction::New => if self.spec_page() is Progress && !self.spec_busy() {
                (CalibrationUi { open: true, ..CalibrationUi::fresh() }, None)
            } else {
                nothing
            },
        }
    }

    /// Carry out a control of the wizard, and say what to send.
    pub fn act(
        &mut self,
        action: WizardAction,
        source: &CalibrationSource,
        connection: &ConnectionState,
        source_busy: bool,
    ) -> (command: Option<WorkerCommand>)
        ensures
            (*final(self), command) == old(self).acted(action, *source, *connection, source_busy),
    {
        let page = self.page();
        match action {
            WizardAction::Close => {
                if self.busy() {
                    if self.pending != Some(Pending::Cancel) {
                        return Some(WorkerCommand::CancelCalibration);
                    }
                } else {
                    self.open = false;
                    self.consent = false;
                }
            },
            WizardAction::Select(kind) => {
                if page == WizardPage::Choose && !(kind.is_user() && source.function.kind().is_some())
                    && source.freeze(kind).is_ok() {
                    self.selected = Some(kind);
                }
            },
            WizardAction::Next => {
                if page == WizardPage::Choose {
                    if let Some(kind) = self.selected {
                        match source.freeze(kind) {
                            Ok(frozen) => {
                                self.frozen = Some(frozen);
                                self.consent = false;
                            },
                            Err(error) => {
                                self.error = Some(error);
                            },
                        }
                    }
                }
            },
            WizardAction::Consent(consent) => {
                if page == WizardPage::Review {
                    self.consent = consent;
                }
            },
            WizardAction::Start => {
                if page == WizardPage::Review && self.review(connection, source_busy).0 {
                    if let Some(frozen) = self.frozen {
                        return Some(WorkerCommand::StartCalibration(frozen.params));
                    }
                }
            },
            WizardAction::Back => {
                if page == WizardPage::Review {
                    self.frozen = None;
                    self.consent = false;
                }
            },
            WizardAction::Advance => {
                if page == WizardPage::Progress {
                    if let Some((true, prompt)) = self.progress().next {
                        return Some(WorkerCommand::AdvanceCalibration(prompt));
                    }
                }
            },
            WizardAction::Cancel => {
                if page == WizardPage::Progress {
                    if let Some(true) = self.progress().cancel {
                        return Some(WorkerCommand::CancelCalibration);
                    }
                }
            },
            WizardAction::New => {
                if page == WizardPage::Progress && !self.busy() {
                    *self = CalibrationUi { open: true, ..CalibrationUi::default() };
                }
            },
        }
        None
    }

    /// A command of the wizard is on its way.
    pub fn sent(&mut self, command: &WorkerCommand)
        ensures
            *final(self) == match *command {
                WorkerCommand::StartCalibration(params) => old(self).begun(params),
                WorkerCommand::AdvanceCalibration(_) => CalibrationUi {
                    pending: Some(Pending::Advance),
                    ..*old(self)
                },
                WorkerCommand::CancelCalibration => CalibrationUi {
                    pending: Some(Pending::Cancel),
                    ..*old(self)
                },
                _ => *old(self),
            },
    {
        match command {
            WorkerCommand::StartCalibration(params) => {
                self.begin(*params);
            },
            WorkerCommand::AdvanceCalibration(_) => {
                self.pending = Some(Pending::Advance);
            },
            WorkerCommand::CancelCalibration => {
                self.pending = Some(Pending::Cancel);
            },
            _ => {},
        }
    }
}

/// Nothing is written to the instrument without consent: a calibration starts
/// only from the reviewed definition, with consent given, on an open link and
/// with no source in use.
pub proof fn law_starting_needs_consent(
    ui: CalibrationUi,
    action: WizardAction,
    source: CalibrationSource,
    connection: ConnectionState,
    source_busy: bool,
    params: CalibrationParams,
)
    requires
        ui.acted(action, source, connection, source_busy).1 == Some(
            WorkerCommand::StartCalibration(params),
        ),
    ensures
        ui.consent,
        connection is Connected,
        !source_busy,
        ui.frozen is Some && ui.frozen->0.params == params,
        !ui.spec_busy(),
{
}

/// Controls never advance a calibration: they leave the report, the completed
/// steps and the current one alone, or start over with a wizard that knows none.
pub proof fn law_controls_complete_no_step(
    ui: CalibrationUi,
    action: WizardAction,
    source: CalibrationSource,
    connection: ConnectionState,
    source_busy: bool,
)
    ensures
        ({
            let after = ui.acted(action, source, connection, source_busy).0;
            ||| after == (CalibrationUi { open: true, ..CalibrationUi::fresh() })
            ||| after.report == ui.report && after.completed_standards == ui.completed_standards
                && after.current_prompt == ui.current_prompt && after.pending == ui.pending
        }),
{
}

/// A step is confirmed only for the standard that the instrument asks for, and
/// only while no other request waits for an answer.
pub proof fn law_confirmed_steps_were_asked_for(
    ui: CalibrationUi,
    action: WizardAction,
    source: CalibrationSource,
    connection: ConnectionState,
    source_busy: bool,
    prompt: CalibrationPrompt,
)
    requires
        ui.acted(action, source, connection, source_busy).1 == Some(
            WorkerCommand::AdvanceCalibration(prompt),
        ),
    ensures
        ui.report.phase == CalibrationPhase::Prompt(prompt),
        ui.pending is None,
{
}

/// While a calibration is under way its window stays open whatever the user
/// does.
pub proof fn law_running_calibrations_stay_visible(
    ui: CalibrationUi,
    action: WizardAction,
    source: CalibrationSource,
    connection: ConnectionState,
    source_busy: bool,
)
    requires
        ui.open,
        ui.spec_busy(),
    ensures
        ui.acted(action, source, connection, source_busy).0.open,
{
}

/// Whatever is taken down is of the kind that was chosen. A range of the user's
/// own is the one that is swept, with the points of the sweep and the bandwidth
/// of the selected trace, whose number is kept. It is taken down only for
/// measurements, of a continuous sweep, and with a selected trace of the same
/// quantity.
pub proof fn law_frozen_calibrations_are_of_the_chosen_kind<'a>(
    source: &CalibrationSource<'a>,
    kind: CalibrationKind,
    result: Result<FrozenCalibration, StatusMessage>,
)
    requires
        call_ensures(CalibrationSource::freeze, (source, kind), result),
    ensures
        result matches Ok(frozen) ==> {
            &&& frozen.params is S11System <==> kind is S11System
            &&& frozen.params is S21System <==> kind is S21System
            &&& frozen.params is S11User <==> kind is S11User
            &&& frozen.params is S21User <==> kind is S21User
            &&& frozen.params.spec_kind() == kind
            &&& source.device is None
            &&& kind is S11System || kind is S21System ==> frozen.trace_id is None
            &&& kind is S11User || kind is S21User ==> {
                let user = if kind is S11User {
                    frozen.params->S11User_0
                } else {
                    frozen.params->S21User_0
                };
                &&& source.function is Measurements
                &&& source.sweep_mode is Range
                &&& source.range == Ok::<(u64, u64), String>((user.center_hz, user.span_hz))
                &&& user.points == source.points
                &&& source.selected is Some
                &&& user.rbw == source.selected->0.settings.rbw
                &&& frozen.trace_id == Some(source.selected->0.id)
                &&& kind is S11User ==> source.selected->0.settings.display is S11
                &&& kind is S21User ==> source.selected->0.settings.display is S21
            }
        },
        (kind is S11System || kind is S21System) && source.device is None ==> result is Ok,
        (kind is S11User || kind is S21User) && source.device is None && source.function is Measurements
            && source.sweep_mode is Range && source.range is Ok && source.selected is Some && (if kind is S11User {
            source.selected->0.settings.display is S11
        } else {
            source.selected->0.settings.display is S21
        }) ==> result is Ok,
{
}

/// Why a range of the user's own cannot be calibrated: a source has none, a list
/// or segments have no single range, and the trace has to show what is
/// calibrated. What the driver objects to is told in its words.
pub proof fn law_refused_calibrations_are_explained<'a>(
    source: &CalibrationSource<'a>,
    kind: CalibrationKind,
    result: Result<FrozenCalibration, StatusMessage>,
)
    requires
        call_ensures(CalibrationSource::freeze, (source, kind), result),
    ensures
        (kind is S11System || kind is S21System) && source.device is Some ==> result == Err::<
            FrozenCalibration,
            StatusMessage,
        >(StatusMessage::Message(Message::Other(source.device->0))),
        kind is S11User || kind is S21User ==> own_range_is_explained(*source, kind, result),
{
}

/// Why a range of the user's own cannot be taken down.
pub open spec fn own_range_is_explained<'a>(
    source: CalibrationSource<'a>,
    kind: CalibrationKind,
    result: Result<FrozenCalibration, StatusMessage>,
) -> bool {
    let quantity = source.selected is Some && if kind is S11User {
        source.selected->0.settings.display is S11
    } else {
        source.selected->0.settings.display is S21
    };
    let refusal = if source.function is RfSource || source.function is AfSource {
        Some(StatusMessage::Text(Text::CalibrationMeasurementsOnly))
    } else if source.sweep_mode is List || source.sweep_mode is Segments {
        Some(StatusMessage::Text(Text::CalibrationContinuousOnly))
    } else if !quantity {
        Some(StatusMessage::Text(Text::CalibrationSelectTrace))
    } else if source.range is Err {
        Some(StatusMessage::Message(Message::Other(source.range->Err_0)))
    } else if source.device is Some {
        Some(StatusMessage::Message(Message::Other(source.device->0)))
    } else {
        None
    };
    &&& result is Err <==> refusal is Some
    &&& result is Err ==> result->Err_0 == refusal->0
}

/// A calibration changes the measurements of its own quantity: reflection or
/// transmission.
pub proof fn law_calibrations_affect_their_quantity(
    kind: CalibrationKind,
    mode: AppMode,
    stream: StreamMode,
    user: bool,
)
    requires
        call_ensures(affected_mode, (kind,), mode),
        call_ensures(CalibrationKind::mode, (kind,), stream),
        call_ensures(CalibrationKind::is_user, (kind,), user),
    ensures
        mode is S11 <==> kind is S11System || kind is S11User,
        mode is S21 <==> kind is S21System || kind is S21User,
        mode is S11 <==> stream is S11,
        mode is S21 <==> stream is S21,
        user <==> kind is S11User || kind is S21User,
{
}

/// A reflection is calibrated with a short, then an open, then a load, and a
/// transmission with a through connection, whoever's range it is.
pub proof fn law_standards_are_measured_in_order(
    kind: CalibrationKind,
    prompts: Vec<CalibrationPrompt>,
)
    requires
        call_ensures(standard_prompts, (kind,), prompts),
    ensures
        kind is S11System || kind is S11User ==> prompts@.len() == 3 && prompts@[0] is Short
            && prompts@[1] is Open && prompts@[2] is Load,
        kind is S21System || kind is S21User ==> prompts@.len() == 1 && prompts@[0] is Through,
{
}

/// Every kind and every standard is told apart by its caption.
pub proof fn law_calibrations_are_named(
    kind: CalibrationKind,
    phase: CalibrationPhase,
    key: Text,
    stage: Text,
)
    requires
        call_ensures(kind_text, (kind,), key),
        call_ensures(phase_text, (phase,), stage),
    ensures
        key is CalibrationS11System <==> kind is S11System,
        key is CalibrationS21System <==> kind is S21System,
        key is CalibrationS11User <==> kind is S11User,
        key is CalibrationS21User <==> kind is S21User,
        stage is CalibrationShort <==> phase == CalibrationPhase::Prompt(CalibrationPrompt::Short),
        stage is CalibrationOpen <==> phase == CalibrationPhase::Prompt(CalibrationPrompt::Open),
        stage is CalibrationLoad <==> phase == CalibrationPhase::Prompt(CalibrationPrompt::Load),
        stage is CalibrationThrough <==> phase == CalibrationPhase::Prompt(
            CalibrationPrompt::Through,
        ),
        stage is CalibrationWarming <==> phase is WarmingUp,
        stage is CalibrationStarting <==> phase is AwaitingConfirmation,
        stage is CalibrationMeasuring <==> phase is Measuring,
        stage is CalibrationProcessing <==> phase is Processing,
        stage is CalibrationSaving <==> phase is Saving,
        stage is CalibrationCompleted <==> phase is Completed,
        stage is CalibrationCancelled <==> phase is Cancelled,
        stage is CalibrationUnknown <==> phase is Unknown,
        stage is SourceNotStarted <==> phase is NotStarted,
{
}

/// The kinds that are offered: the instrument's own at any time, and those of
/// the user's range while the instrument measures, reflection before
/// transmission.
pub proof fn law_offered_kinds(function: InstrumentFunction, kinds: Vec<CalibrationKind>)
    requires
        call_ensures(offered_kinds, (function,), kinds),
    ensures
        kinds@.len() >= 2 && kinds@[0] is S11System && kinds@[1] is S21System,
        function is Measurements ==> kinds@.len() == 4 && kinds@[2] is S11User && kinds@[3] is S21User,
        function is RfSource || function is AfSource ==> kinds@.len() == 2,
{
    reveal_with_fuel(offers, 5);
    assert(all_kinds().len() == 4);
}

/// What a report of the instrument completes: a prompt for a standard completes
/// those before it, the end completes all, and nothing else completes any. A
/// report of another kind than the one that was started changes nothing.
pub proof fn law_reports_complete_the_standards(
    ui: &mut CalibrationUi,
    report: CalibrationReport,
)
    requires
        call_ensures(CalibrationUi::accept, (ui, report), ()),
        old(ui).frozen is Some,
        report.kind is Some,
    ensures
        ({
            let kind = old(ui).frozen->0.params.spec_kind();
            let reflection = kind is S11System || kind is S11User;
            let after = *final(ui);
            if report.kind != Some(kind) {
                after == *old(ui)
            } else {
                &&& after.pending is None
                &&& after.report == report
                &&& after.frozen == old(ui).frozen
                &&& after.consent == old(ui).consent
                &&& after.open == old(ui).open
                &&& reflection && report.phase == CalibrationPhase::Prompt(CalibrationPrompt::Short)
                    ==> after.completed_standards == 0
                &&& reflection && report.phase == CalibrationPhase::Prompt(CalibrationPrompt::Open)
                    ==> after.completed_standards == 1
                &&& reflection && report.phase == CalibrationPhase::Prompt(CalibrationPrompt::Load)
                    ==> after.completed_standards == 2
                &&& !reflection && report.phase == CalibrationPhase::Prompt(
                    CalibrationPrompt::Through,
                ) ==> after.completed_standards == 0
                &&& report.phase is Completed ==> after.current_prompt is None
                    && after.completed_standards == if reflection {
                    3int
                } else {
                    1int
                }
                &&& !(report.phase is Prompt) && !(report.phase is Completed)
                    ==> after.completed_standards == old(ui).completed_standards
                    && after.current_prompt == old(ui).current_prompt
                &&& (report.phase matches CalibrationPhase::Prompt(prompt) && (if reflection {
                    !(prompt is Through)
                } else {
                    prompt is Through
                })) ==> after.current_prompt == Some(report.phase->Prompt_0)
            }
        }),
{
    let kind = old(ui).frozen->0.params.spec_kind();
    let prompts = standards(kind);
    if kind is S11System || kind is S11User {
        assert(prompts[0] is Short && prompts[1] is Open && prompts[2] is Load);
        assert(prompts.contains(CalibrationPrompt::Short));
        assert(prompts.contains(CalibrationPrompt::Open));
        assert(prompts.contains(CalibrationPrompt::Load));
    } else {
        assert(prompts[0] is Through);
        assert(prompts.contains(CalibrationPrompt::Through));
    }
}

/// Where the wizard stands: nothing is taken down on the first page, nothing has
/// begun on the second, and the third follows the instrument.
pub proof fn law_pages_follow_the_calibration(ui: &CalibrationUi, page: WizardPage, busy: bool)
    requires
        call_ensures(CalibrationUi::page, (ui,), page),
        call_ensures(CalibrationUi::busy, (ui,), busy),
    ensures
        page is Choose <==> ui.frozen is None,
        page is Review ==> ui.frozen is Some && !busy,
        page is Progress <==> ui.frozen is Some && (ui.pending is Some || !(
        ui.report.phase is NotStarted)),
        busy <==> ui.pending is Some || ui.report.phase is AwaitingConfirmation
            || ui.report.phase is WarmingUp || ui.report.phase is Prompt
            || ui.report.phase is Measuring || ui.report.phase is Processing
            || ui.report.phase is Saving,
{
}

/// What the progress page offers: a standard is confirmed only where the
/// instrument asks for it and no request waits, and a running calibration can be
/// cancelled once. What a calibration has changed is said when it ends.
pub proof fn law_progress_follows_the_instrument(ui: &CalibrationUi, progress: Progress)
    requires
        call_ensures(CalibrationUi::progress, (ui,), progress),
    ensures
        progress.next matches Some((now, prompt)) ==> ui.report.phase == CalibrationPhase::Prompt(
            prompt,
        ) && (now <==> ui.pending is None),
        ui.report.phase is Prompt ==> progress.next is Some,
        progress.connect_help <==> ui.report.phase is Prompt && ui.pending is None,
        progress.cancel == Some(true) ==> ui.pending != Some(Pending::Cancel),
        progress.cancel == Some(false) <==> ui.pending == Some(Pending::Cancel),
        ui.report.phase is Prompt && ui.pending is None ==> progress.cancel == Some(true)
            && !progress.spinner,
        ui.pending is None && (ui.report.phase is NotStarted || ui.report.phase is Completed
            || ui.report.phase is Cancelled || ui.report.phase is Unknown) ==> progress.cancel is None
            && progress.next is None && !progress.spinner,
        progress.note == Some(Text::CalibrationReacquire) <==> ui.report.phase is Completed,
        progress.note == Some(Text::CalibrationChanged) <==> ui.report.phase is Cancelled
            || ui.report.phase is Unknown,
{
}

/// Every control does what it says, where it is offered: the definition that was
/// reviewed is started, the standard that is asked for is confirmed, and closing
/// the window of a running calibration cancels it.
pub proof fn law_controls_send_their_command<'a>(
    ui: &mut CalibrationUi,
    action: WizardAction,
    source: &CalibrationSource<'a>,
    connection: &ConnectionState,
    source_busy: bool,
    command: Option<WorkerCommand>,
)
    requires
        call_ensures(CalibrationUi::act, (ui, action, source, connection, source_busy), command),
    ensures
        command matches Some(WorkerCommand::StartCalibration(params)) ==> action is Start && old(ui).consent && *connection is Connected && !source_busy && old(ui).frozen is Some && old(ui).frozen->0.params == params,
        command matches Some(WorkerCommand::AdvanceCalibration(prompt)) ==> action is Advance && old(ui).report.phase == CalibrationPhase::Prompt(prompt) && old(ui).pending is None,
        command matches Some(WorkerCommand::CancelCalibration) ==> (action is Cancel
            || action is Close) && old(ui).spec_busy() && old(ui).pending != Some(Pending::Cancel),
        action is Start && old(ui).frozen is Some && old(ui).report.phase is NotStarted && old(ui).pending is None && old(ui).consent && *connection is Connected && !source_busy
            ==> command == Some(
            WorkerCommand::StartCalibration(old(ui).frozen->0.params),
        ),
        action is Advance && old(ui).frozen is Some && old(ui).pending is None && old(ui).report.phase is Prompt ==> command == Some(
            WorkerCommand::AdvanceCalibration(old(ui).report.phase->Prompt_0),
        ),
        action is Cancel && old(ui).frozen is Some && old(ui).pending is None && old(ui).report.phase is Prompt ==> command == Some(WorkerCommand::CancelCalibration),
        action is Close && old(ui).report.phase is Prompt && old(ui).pending is None ==> command
            == Some(WorkerCommand::CancelCalibration) && *final(ui) == *old(ui),
        action is Close && !old(ui).spec_busy() ==> !final(ui).open && !final(ui).consent
            && command is None,
        action == WizardAction::Consent(true) && old(ui).frozen is Some && old(ui).report.phase is NotStarted && old(ui).pending is None ==> final(ui).consent,
        action is Next && old(ui).frozen is None && old(ui).selected is Some && final(ui).frozen is Some ==> final(ui).frozen->0.params.spec_kind() == old(ui).selected->0
            && !final(ui).consent,
        action is Back && old(ui).frozen is Some && old(ui).report.phase is NotStarted && old(ui).pending is None ==> final(ui).frozen is None && !final(ui).consent,
        action is New && old(ui).frozen is Some && !old(ui).spec_busy() && !(old(ui).report.phase is NotStarted) ==> final(ui).open && final(ui).frozen is None && final(ui).completed_standards == 0 && final(ui).report.phase is NotStarted && !final(ui).consent,
        !(command matches Some(WorkerCommand::StartCalibration(_))) && !(command matches Some(
            WorkerCommand::AdvanceCalibration(_),
        )) && !(command matches Some(WorkerCommand::CancelCalibration)) ==> command is None,
{
}

/// A calibration that was asked for waits for its answer under its own kind, and
/// has completed nothing. Consent is given anew for each: it does not outlast a
/// window that is opened again.
pub proof fn law_calibrations_start_over(
    ui: &mut CalibrationUi,
    params: CalibrationParams,
    other: &mut CalibrationUi,
)
    requires
        call_ensures(CalibrationUi::begin, (ui, params), ()),
        call_ensures(CalibrationUi::open, (other,), ()),
    ensures
        final(ui).pending == Some(Pending::Start),
        final(ui).frozen is Some && final(ui).frozen->0.params == params,
        final(ui).report.kind == Some(params.spec_kind()),
        final(ui).report.phase is NotStarted,
        final(ui).completed_standards == 0,
        final(ui).current_prompt is None,
        final(ui).error is None,
        final(ui).open,
        final(other).open,
        old(other).report.phase is NotStarted && old(other).pending is None ==> !final(other).consent,
        final(other).frozen == old(other).frozen,
        final(other).report == old(other).report,
        final(other).completed_standards == old(other).completed_standards,
{
}

/// When the link is lost, what a calibration under way has done is unknown: it
/// is no longer running, stays on screen and keeps its completed standards. One
/// that is not under way keeps its report.
pub proof fn law_lost_calibrations_are_unknown(ui: &mut CalibrationUi)
    requires
        call_ensures(CalibrationUi::lost, (ui,), ()),
    ensures
        final(ui).pending is None,
        !final(ui).spec_busy(),
        old(ui).spec_busy() ==> final(ui).report.phase is Unknown && final(ui).report.kind == old(ui).report.kind && final(ui).open,
        !old(ui).spec_busy() ==> final(ui).report == old(ui).report && final(ui).open == old(ui).open,
        final(ui).frozen == old(ui).frozen,
        final(ui).completed_standards == old(ui).completed_standards,
        final(ui).current_prompt == old(ui).current_prompt,
{
}

/// A failed request is shown in an open wizard. One that waited for an answer
/// leaves the calibration unknown.
pub proof fn law_failed_requests_are_shown(ui: &mut CalibrationUi, message: &Message)
    requires
        call_ensures(CalibrationUi::request_failed, (ui, message), ()),
    ensures
        final(ui).error == if old(ui).open && old(ui).frozen is Some {
            Some(StatusMessage::Message(*message))
        } else {
            old(ui).error
        },
        final(ui).pending is None,
        old(ui).pending is Some ==> final(ui).report.phase is Unknown,
        old(ui).pending is None ==> final(ui).report == old(ui).report,
        final(ui).completed_standards == old(ui).completed_standards,
{
}

/// Each step is marked by what the instrument has completed: those before the
/// current one are done, the current one may be interrupted, the rest is to
/// come.
pub proof fn law_steps_are_marked_by_progress(
    ui: &CalibrationUi,
    rows: Vec<(CalibrationPrompt, Text)>,
    index: int,
)
    requires
        call_ensures(CalibrationUi::step_rows, (ui,), rows),
        ui.frozen is Some,
        0 <= index < rows@.len(),
    ensures
        rows@.len() == if ui.frozen->0.params is S11System || ui.frozen->0.params is S11User {
            3int
        } else {
            1int
        },
        rows@[index].1 is CalibrationStepDone <==> index < ui.completed_standards,
        rows@[index].1 is CalibrationStepCurrent <==> index >= ui.completed_standards
            && ui.current_prompt == Some(rows@[index].0) && !(ui.report.phase is Unknown) && !(
        ui.report.phase is Cancelled),
        rows@[index].1 is CalibrationStepInterrupted <==> index >= ui.completed_standards
            && ui.current_prompt == Some(rows@[index].0) && (ui.report.phase is Unknown
            || ui.report.phase is Cancelled),
        rows@[index].1 is CalibrationStepPending <==> index >= ui.completed_standards
            && ui.current_prompt != Some(rows@[index].0),
        rows@.len() == 1 ==> rows@[0].0 is Through,
        rows@.len() == 3 ==> rows@[0].0 is Short && rows@[1].0 is Open && rows@[2].0 is Load,
{
}

/// What the wizard says while a request waits, and otherwise the instrument's
/// own phase.
pub proof fn law_labels_tell_the_stage(ui: &CalibrationUi, language: Language, caption: Caption)
    requires
        call_ensures(CalibrationUi::label, (ui, language), caption),
    ensures
        ui.pending == Some(Pending::Start) ==> caption == (Caption::Entry {
            language,
            key: Text::CalibrationStarting,
        }),
        ui.pending == Some(Pending::Advance) ==> caption == (Caption::Entry {
            language,
            key: Text::CalibrationMeasuring,
        }),
        ui.pending == Some(Pending::Cancel) ==> caption == (Caption::Entry {
            language,
            key: Text::CalibrationCancelling,
        }),
        ui.pending is None ==> caption == (Caption::Entry {
            language,
            key: phase_key(ui.report.phase),
        }),
{
}

/// A command that went out waits for its answer: a start under its own
/// definition, a confirmation and a cancellation as such.
pub proof fn law_sent_commands_wait(ui: &mut CalibrationUi, command: &WorkerCommand)
    requires
        call_ensures(CalibrationUi::sent, (ui, command), ()),
    ensures
        *command is StartCalibration ==> final(ui).pending == Some(Pending::Start) && final(ui).frozen is Some && final(ui).frozen->0.params == command->StartCalibration_0,
        *command is AdvanceCalibration ==> final(ui).pending == Some(Pending::Advance),
        *command is CancelCalibration ==> final(ui).pending == Some(Pending::Cancel),
        !(*command is StartCalibration) && !(*command is AdvanceCalibration) && !(
        *command is CancelCalibration) ==> *final(ui) == *old(ui),
        !(*command is StartCalibration) ==> final(ui).report == old(ui).report && final(ui).completed_standards == old(ui).completed_standards,
{
}

/// A calibration can be started from the review with consent, on an open link
/// and with no source in use, and the review says what is missing outside.
pub proof fn law_reviews_name_the_obstacle(
    ui: &CalibrationUi,
    connection: &ConnectionState,
    source_busy: bool,
    review: (bool, Option<Text>),
)
    requires
        call_ensures(CalibrationUi::review, (ui, connection, source_busy), review),
    ensures
        review.0 ==> review.1 is None,
        review.0 <==> ui.consent && *connection is Connected && !source_busy,
        source_busy ==> review.1 == Some(Text::CalibrationStopSource),
        !source_busy && !(*connection is Connected) ==> review.1 == Some(
            Text::DeviceInfoUnavailable,
        ),
{
}

} // verus!
