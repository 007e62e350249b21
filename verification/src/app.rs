//! What the main window does with the worker's events, and how it closes.
//!
//! Effects on things that live outside are returned in the order in which they
//! are to be carried out. Times are nanoseconds of the monotonic clock.

use std::sync::Arc;
use vstd::prelude::*;

use crate::acquisition;
use crate::acquisition::{
    contains_id, AcquisitionGroup, AcquisitionSettings, CompletedSweep, RunSettings,
    SweepDelivery, MAX_TRACES,
};
use crate::calibration_panel::CalibrationUi;
use crate::desktop::{DesktopState, Page};
use crate::device_lookup::DeviceLookup;
use crate::messages::{
    ConnectionState, EventEnvelope, InstrumentFunction, Message, RunProgress, StatusMessage,
    SweepState, WorkerEvent,
};
use crate::model::{copied, DeviceInfo, Real, SourceReport};
use crate::state::{AppState, HealthState};
use crate::text::{same_text, Text};
use crate::workspace::{PreviewEnvelope, SweepMode, TraceState, Workspace};

verus! {

/// How long changed settings wait before they are written.
pub const CONFIG_SAVE_DELAY: u128 = 1_000_000_000;

/// What is to be done outside.
#[derive(Debug, PartialEq, Eq)]
pub enum UiEffect {
    /// The source page is told that the link is open.
    SourceConnected,
    /// The source page is told that the link or its request is gone.
    SourceLost,
    /// The source page takes over a report.
    SourceAccept(SourceReport),
    /// Ask the worker for the instrument's condition.
    RefreshStatus,
    /// Tell the worker to end.
    Shutdown,
    /// Cancel the flag of the current acquisition.
    CancelAcquisition,
    /// Cancel the flag of the current session.
    CancelSession,
    /// Cancel the worker's own flag.
    CancelWorker,
    CancelExport,
    CancelFrequencyEditor,
    CancelRunEditor,
    CancelFolderOpener,
    /// Drop the sender of commands.
    CloseCommands,
    /// Join the worker's thread.
    JoinWorker,
    /// Keep the window open and look again after some milliseconds.
    KeepOpen(u64),
    CloseWindow,
    SaveConfig,
    SelectFunction(InstrumentFunction),
    OpenTraceEditor,
    OpenFolder(String),
    ResetFrequencyView,
    /// Ask for another plan where the definitions have changed.
    ReconcilePlan,
    ShowCalibration,
    WorkerStopped,
}

/// The main window.
#[derive(Debug)]
pub struct KcsdiApp {
    pub state: AppState,
    /// When the last edit that is not written yet happened.
    pub dirty_since: Option<u128>,
    pub connection_open: bool,
    /// Whether the worker's thread is still to be joined.
    pub worker: bool,
    pub closing: bool,
}

/// Whether only the previews were dropped.
pub open spec fn previews_cleared(after: Workspace, before: Workspace) -> bool {
    &&& after == (Workspace { traces: after.traces, ..before })
    &&& after.traces@.len() == before.traces@.len()
    &&& forall|i: int|
        0 <= i < before.traces@.len() ==> #[trigger] after.traces@[i] == (TraceState {
            preview: None,
            ..before.traces@[i]
        })
}

fn clear_previews(workspace: &mut Workspace)
    ensures
        previews_cleared(*final(workspace), *old(workspace)),
{
    let mut index: usize = 0;
    while index < workspace.traces.len()
        invariant
            index <= workspace.traces@.len() == old(workspace).traces@.len(),
            *workspace == (Workspace { traces: workspace.traces, ..*old(workspace) }),
            forall|i: int|
                0 <= i < workspace.traces@.len() ==> #[trigger] workspace.traces@[i] == if i
                    < index {
                    TraceState { preview: None, ..old(workspace).traces@[i] }
                } else {
                    old(workspace).traces@[i]
                },
        decreases workspace.traces@.len() - index,
    {
        workspace.traces[index].preview = None;
        index = index + 1;
    }
}

/// Whether this is the state after the link is gone. Measurements stay.
pub open spec fn is_disconnected(after: AppState, before: AppState) -> bool {
    &&& after == (AppState {
        calibration: before.calibration.after_loss(),
        connection: ConnectionState::Disconnected,
        device_info: None,
        health: HealthState::unknown(),
        sweep: SweepState::Idle,
        active_plan: None,
        run_progress: None,
        workspace: after.workspace,
        ..before
    })
    &&& previews_cleared(after.workspace, before.workspace)
}

/// The state in which a calibration under way was told why the link is gone.
pub open spec fn calibration_told(state: AppState, message: Message) -> AppState {
    AppState {
        calibration: CalibrationUi {
            error: if state.calibration.spec_busy() {
                Some(StatusMessage::Message(message))
            } else {
                state.calibration.error
            },
            ..state.calibration
        },
        ..state
    }
}

/// What follows outside from the loss of the link.
pub open spec fn disconnect_effects() -> Seq<UiEffect> {
    seq![UiEffect::SourceLost, UiEffect::CancelAcquisition, UiEffect::CancelSession]
}

/// Whether a saved pass is newer than the one that is shown.
pub open spec fn newer_recording(last: Option<(u64, String)>, pass_id: u64) -> bool {
    pass_id != 0 && match last {
        Some((shown, _)) => pass_id > shown,
        None => true,
    }
}

/// Whether an event belongs to a request. The others belong to the session.
pub open spec fn request_scoped(event: WorkerEvent) -> bool {
    event is SweepTrace || event is SweepStopped || event is RunProgress || event is SourceReport
        || event is CalibrationReport || event is Error
}

impl KcsdiApp {
    /// Whether this is the window after the link was opened.
    pub open spec fn is_connected(self, before: Self, info: DeviceInfo, effects: Seq<UiEffect>) -> bool {
        let state = before.state;
        &&& self == (KcsdiApp {
            connection_open: false,
            state: AppState {
                connection: ConnectionState::Connected,
                health: HealthState::unknown(),
                device_info: Some(info),
                status_message: Some(StatusMessage::Text(Text::Connected)),
                desktop: DesktopState {
                    lookup: DeviceLookup {
                        ports: state.desktop.lookup.ports.cancelled(),
                        ..state.desktop.lookup
                    },
                    ..state.desktop
                },
                ..state
            },
            ..before
        })
        &&& effects == seq![UiEffect::SourceConnected, UiEffect::RefreshStatus]
    }

    /// Whether this is the window after the link was closed as asked.
    pub open spec fn is_released(self, before: Self, effects: Seq<UiEffect>) -> bool {
        let state = before.state;
        &&& self == (KcsdiApp { state: self.state, ..before })
        &&& exists|gone: AppState|
            {
                &&& #[trigger] is_disconnected(gone, state)
                &&& self.state == (AppState {
                    status_message: Some(StatusMessage::Text(Text::Disconnected)),
                    ..gone
                })
            }
        &&& effects == disconnect_effects()
    }

    /// Whether this is the window after the link was lost.
    pub open spec fn is_lost(self, before: Self, message: Message, effects: Seq<UiEffect>) -> bool {
        let state = before.state;
        &&& self == (KcsdiApp { state: self.state, ..before })
        &&& exists|gone: AppState|
            {
                &&& #[trigger] is_disconnected(gone, calibration_told(state, message))
                &&& self.state == (AppState {
                    connection: ConnectionState::Error(message),
                    status_message: Some(StatusMessage::Message(message)),
                    ..gone
                })
            }
        &&& effects == disconnect_effects()
    }

    /// Whether this is the window after a request failed. The link stays, and so
    /// do measurements.
    pub open spec fn is_failed(self, before: Self, message: Message, effects: Seq<UiEffect>) -> bool {
        let state = before.state;
        &&& self == (KcsdiApp {
            state: AppState {
                calibration: state.calibration.after_failure(message),
                connection: state.connection.after_failure(message),
                sweep: SweepState::Idle,
                active_plan: None,
                run_progress: None,
                status_message: Some(StatusMessage::Message(message)),
                workspace: self.state.workspace,
                ..state
            },
            ..before
        })
        &&& previews_cleared(self.state.workspace, state.workspace)
        &&& effects == seq![UiEffect::SourceLost]
    }

    /// Whether this is the window after the worker has stopped measuring.
    pub open spec fn is_stopped(self, before: Self, effects: Seq<UiEffect>) -> bool {
        let state = before.state;
        &&& effects.len() == 0
        &&& if state.sweep is Stopping {
            &&& self == (KcsdiApp {
                state: AppState {
                    sweep: SweepState::Idle,
                    run_progress: None,
                    workspace: self.state.workspace,
                    ..state
                },
                ..before
            })
            &&& previews_cleared(self.state.workspace, state.workspace)
        } else {
            self == before
        }
    }

    /// Whether this is the window after an event of its own session and
    /// request, and what follows outside.
    pub open spec fn is_applied(
        self,
        before: Self,
        event: WorkerEvent,
        now: u128,
        effects: Seq<UiEffect>,
    ) -> bool {
        let state = before.state;
        match event {
            WorkerEvent::Connected(info) => self.is_connected(before, info, effects),
            WorkerEvent::Disconnected => self.is_released(before, effects),
            WorkerEvent::ConnectionLost(message) => self.is_lost(before, message, effects),
            WorkerEvent::Error(message) => self.is_failed(before, message, effects),
            WorkerEvent::SweepStopped => self.is_stopped(before, effects),
            WorkerEvent::SweepTrace(_) => effects.len() == 0 && self == before,
            WorkerEvent::SourceReport(report) => {
                &&& self == before
                &&& effects == if state.connection is Connected {
                    seq![UiEffect::SourceAccept(report)]
                } else {
                    seq![]
                }
            },
            WorkerEvent::CalibrationReport(report) => {
                &&& effects.len() == 0
                &&& self == (KcsdiApp {
                    state: AppState { calibration: self.state.calibration, ..state },
                    ..before
                })
                &&& if state.connection is Connected {
                    self.state.calibration.is_accepted(state.calibration, report)
                } else {
                    self == before
                }
            },
            WorkerEvent::RunProgress(progress) => {
                &&& effects.len() == 0
                &&& self == if !(state.connection is Connected) || !state.running() {
                    before
                } else {
                    match progress {
                        RunProgress::Saved { path, pass_id } => if newer_recording(
                            state.last_recording,
                            pass_id,
                        ) {
                            KcsdiApp {
                                state: AppState {
                                    last_recording: Some((pass_id, path)),
                                    ..state
                                },
                                ..before
                            }
                        } else {
                            before
                        },
                        other => KcsdiApp {
                            state: AppState { run_progress: Some(other), ..state },
                            ..before
                        },
                    }
                }
            },
            WorkerEvent::Status(snapshot) => {
                &&& effects.len() == 0
                &&& self == if state.connection is Connected {
                    KcsdiApp {
                        state: AppState {
                            health: HealthState {
                                snapshot: Some(snapshot),
                                pending: false,
                                error: None,
                                answered_at: Some(now),
                            },
                            ..state
                        },
                        ..before
                    }
                } else {
                    before
                }
            },
            WorkerEvent::StatusFailed(message) => {
                &&& effects.len() == 0
                &&& self == if state.connection is Connected {
                    KcsdiApp {
                        state: AppState {
                            health: HealthState {
                                snapshot: state.health.snapshot,
                                pending: false,
                                error: Some(message),
                                answered_at: Some(now),
                            },
                            ..state
                        },
                        ..before
                    }
                } else {
                    before
                }
            },
        }
    }

    fn connected(&mut self, info: DeviceInfo) -> (effects: Vec<UiEffect>)
        ensures
            final(self).is_connected(*old(self), info, effects@),
    {
        let mut effects: Vec<UiEffect> = Vec::new();
        self.connection_open = false;
        self.state.desktop.lookup.ports.cancel();
        self.state.connection = ConnectionState::Connected;
        effects.push(UiEffect::SourceConnected);
        self.state.health = HealthState::default();
        self.state.device_info = Some(info);
        self.state.status_message = Some(StatusMessage::Text(Text::Connected));
        effects.push(UiEffect::RefreshStatus);
        assert(effects@ =~= seq![UiEffect::SourceConnected, UiEffect::RefreshStatus]);
        effects
    }

    fn released(&mut self) -> (effects: Vec<UiEffect>)
        ensures
            final(self).is_released(*old(self), effects@),
    {
        let effects = self.clear_connection();
        let ghost gone = self.state;
        assert(is_disconnected(gone, old(self).state));
        self.state.status_message = Some(StatusMessage::Text(Text::Disconnected));
        effects
    }

    fn lost(&mut self, message: Message) -> (effects: Vec<UiEffect>)
        ensures
            final(self).is_lost(*old(self), message, effects@),
    {
        if self.state.calibration.busy() {
            self.state.calibration.error = Some(StatusMessage::Message(message.clone()));
        }
        assert(self.state == calibration_told(old(self).state, message));
        let effects = self.clear_connection();
        let ghost gone = self.state;
        assert(is_disconnected(gone, calibration_told(old(self).state, message)));
        self.state.connection = ConnectionState::Error(message.clone());
        self.state.status_message = Some(StatusMessage::Message(message));
        effects
    }

    fn failed(&mut self, message: Message) -> (effects: Vec<UiEffect>)
        ensures
            final(self).is_failed(*old(self), message, effects@),
    {
        let mut effects: Vec<UiEffect> = Vec::new();
        effects.push(UiEffect::SourceLost);
        self.state.calibration.request_failed(&message);
        self.state.connection.request_failed(&message);
        self.state.sweep = SweepState::Idle;
        self.state.active_plan = None;
        self.state.run_progress = None;
        clear_previews(&mut self.state.workspace);
        self.state.status_message = Some(StatusMessage::Message(message));
        assert(effects@ =~= seq![UiEffect::SourceLost]);
        effects
    }

    fn stopped(&mut self) -> (effects: Vec<UiEffect>)
        ensures
            final(self).is_stopped(*old(self), effects@),
    {
        if self.state.sweep == SweepState::Stopping {
            self.state.sweep = SweepState::Idle;
            self.state.run_progress = None;
            clear_previews(&mut self.state.workspace);
        }
        Vec::new()
    }

    pub fn apply_event(&mut self, event: WorkerEvent, now: u128) -> (effects: Vec<UiEffect>)
        ensures
            final(self).is_applied(*old(self), event, now, effects@),
    {
        let mut effects: Vec<UiEffect> = Vec::new();
        match event {
            WorkerEvent::Connected(info) => {
                effects = self.connected(info);
            },
            WorkerEvent::Disconnected => {
                effects = self.released();
            },
            WorkerEvent::ConnectionLost(message) => {
                effects = self.lost(message);
            },
            WorkerEvent::Error(message) => {
                effects = self.failed(message);
            },
            WorkerEvent::SweepStopped => {
                effects = self.stopped();
            },
            WorkerEvent::SweepTrace(_) => {},
            WorkerEvent::SourceReport(report) => {
                if self.state.connection.is_connected() {
                    effects.push(UiEffect::SourceAccept(report));
                }
                assert(effects@ =~= if old(self).state.connection is Connected {
                    seq![UiEffect::SourceAccept(report)]
                } else {
                    seq![]
                });
            },
            WorkerEvent::CalibrationReport(report) => {
                if self.state.connection.is_connected() {
                    self.state.calibration.accept(report);
                }
            },
            WorkerEvent::RunProgress(progress) => {
                if self.state.connection.is_connected() && self.state.any_running() {
                    match progress {
                        RunProgress::Saved { path, pass_id } => {
                            let newer = pass_id != 0 && match &self.state.last_recording {
                                Some((last, _)) => pass_id > *last,
                                None => true,
                            };
                            if newer {
                                self.state.last_recording = Some((pass_id, path));
                            }
                        },
                        other => {
                            self.state.run_progress = Some(other);
                        },
                    }
                }
            },
            WorkerEvent::Status(snapshot) => {
                if self.state.connection.is_connected() {
                    self.state.health.succeed(snapshot, now);
                }
            },
            WorkerEvent::StatusFailed(message) => {
                if self.state.connection.is_connected() {
                    self.state.health.fail(message, now);
                }
            },
        }
        effects
    }

    /// The link is gone.
    pub fn clear_connection(&mut self) -> (effects: Vec<UiEffect>)
        ensures
            *final(self) == (KcsdiApp { state: final(self).state, ..*old(self) }),
            is_disconnected(final(self).state, old(self).state),
            effects@ == disconnect_effects(),
    {
        let mut effects: Vec<UiEffect> = Vec::new();
        effects.push(UiEffect::SourceLost);
        self.state.calibration.lost();
        self.state.connection = ConnectionState::Disconnected;
        self.state.device_info = None;
        self.state.health = HealthState::default();
        self.state.sweep = SweepState::Idle;
        self.state.active_plan = None;
        self.state.run_progress = None;
        clear_previews(&mut self.state.workspace);
        effects.push(UiEffect::CancelAcquisition);
        effects.push(UiEffect::CancelSession);
        assert(effects@ =~= disconnect_effects());
        effects
    }

    /// Whether results of a group are wanted: a measurement runs on an open
    /// link, and its plan holds the group as it is.
    pub open spec fn wants(self, group: acquisition::GroupModel) -> bool {
        &&& self.state.connection is Connected
        &&& self.state.function is Measurements
        &&& self.state.running()
        &&& self.state.active_plan is Some
        &&& self.state.active_plan->0.models().contains(group)
    }

    pub fn accepts_group(&self, group: &AcquisitionGroup) -> (accepted: bool)
        ensures
            accepted == self.wants(group@),
    {
        if !self.state.connection.is_connected() || self.state.function
            != InstrumentFunction::Measurements || !self.state.any_running() {
            return false;
        }
        let Some(plan) = &self.state.active_plan else {
            return false;
        };
        let mut index: usize = 0;
        while index < plan.groups.len()
            invariant
                index <= plan.groups@.len(),
                self.state.connection is Connected,
                self.state.function is Measurements,
                self.state.running(),
                self.state.active_plan == Some(*plan),
                forall|i: int| 0 <= i < index ==> (#[trigger] plan.models()[i]) != group@,
            decreases plan.groups@.len() - index,
        {
            assert(plan.models()[index as int] == plan.groups@[index as int]@);
            if plan.groups[index].same(group) {
                return true;
            }
            index = index + 1;
        }
        false
    }

    /// Whether a complete sweep goes to a trace: the trace is shown, asked for
    /// exactly these conditions and still does, reads these rows, and has none
    /// of a later cycle.
    pub open spec fn delivers(
        trace: TraceState,
        delivery: SweepDelivery,
        cycle: u64,
        wanted: Option<AcquisitionSettings>,
    ) -> bool {
        &&& trace.settings.visible
        &&& delivery.members@.contains(trace.id)
        &&& wanted is Some && wanted->0@ == delivery.snapshot.settings@
        &&& trace.settings.display.reads(delivery.snapshot.data@)
        &&& trace.last_completed_cycle matches Some(last) ==> cycle > last
    }

    /// Whether a delivery is taken at all: its group is wanted, it is of this
    /// session and its rows are complete.
    pub open spec fn takes(self, delivery: SweepDelivery) -> bool {
        let settings = delivery.snapshot.settings@;
        let data = delivery.snapshot.data@;
        &&& self.wants(acquisition::GroupModel { settings, members: delivery.members@ })
        &&& delivery.snapshot.session_id == self.state.session_id
        &&& data.mode == settings.mode()
        &&& data.format == settings.format()
        &&& settings.complete_rows(data.points.len())
    }

    /// Whether this is a trace after a complete sweep went to it.
    pub open spec fn is_delivered(
        after: TraceState,
        before: TraceState,
        snapshot: Arc<CompletedSweep>,
        cycle: u64,
        distances: Seq<Vec<Real>>,
    ) -> bool {
        &&& after == (TraceState {
            last_completed_cycle: Some(cycle),
            preview: match before.preview {
                Some(preview) => if preview.cycle_id <= cycle {
                    None
                } else {
                    before.preview
                },
                None => None,
            },
            completed: Some(snapshot),
            needs_fit: true,
            analysis: after.analysis,
            ..before
        })
        &&& after.analysis.is_observed(before.analysis, snapshot, distances)
    }

    /// Hand a complete sweep to its traces. `wanted` holds what each trace would
    /// ask for now, `distances` the distances of its markers to the points.
    pub fn apply_delivery(
        &mut self,
        delivery: SweepDelivery,
        cycle: u64,
        wanted: &Vec<Option<AcquisitionSettings>>,
        distances: &Vec<Vec<Vec<Real>>>,
    )
        requires
            wanted@.len() == old(self).state.workspace.traces@.len(),
            distances@.len() == old(self).state.workspace.traces@.len(),
        ensures
            !old(self).takes(delivery) ==> *final(self) == *old(self),
            old(self).takes(delivery) ==> ({
                let before = old(self).state.workspace.traces@;
                let after = final(self).state.workspace.traces@;
                &&& *final(self) == (KcsdiApp {
                    state: AppState {
                        status_message: None,
                        workspace: Workspace {
                            traces: final(self).state.workspace.traces,
                            ..old(self).state.workspace
                        },
                        ..old(self).state
                    },
                    ..*old(self)
                })
                &&& after.len() == before.len()
                &&& forall|i: int|
                    #![trigger after[i]]
                    0 <= i < before.len() ==> if KcsdiApp::delivers(
                        before[i],
                        delivery,
                        cycle,
                        wanted@[i],
                    ) {
                        KcsdiApp::is_delivered(
                            after[i],
                            before[i],
                            delivery.snapshot,
                            cycle,
                            distances@[i]@,
                        )
                    } else {
                        after[i] == before[i]
                    }
            }),
    {
        let group = AcquisitionGroup {
            settings: delivery.snapshot.settings.clone(),
            members: copied(&delivery.members),
        };
        assert(group@ == (acquisition::GroupModel {
            settings: delivery.snapshot.settings@,
            members: delivery.members@,
        }));
        if !self.accepts_group(&group) || delivery.snapshot.session_id != self.state.session_id
            || !group.settings.accepts(&delivery.snapshot.data) {
            return;
        }
        let ghost before = self.state.workspace.traces@;
        let mut index: usize = 0;
        while index < self.state.workspace.traces.len()
            invariant
                index <= self.state.workspace.traces@.len() == before.len(),
                before == old(self).state.workspace.traces@,
                wanted@.len() == before.len(),
                distances@.len() == before.len(),
                group@.settings == delivery.snapshot.settings@,
                *self == (KcsdiApp {
                    state: AppState {
                        workspace: Workspace {
                            traces: self.state.workspace.traces,
                            ..old(self).state.workspace
                        },
                        ..old(self).state
                    },
                    ..*old(self)
                }),
                forall|i: int|
                    #![trigger self.state.workspace.traces@[i]]
                    0 <= i < before.len() ==> if i < index && KcsdiApp::delivers(
                        before[i],
                        delivery,
                        cycle,
                        wanted@[i],
                    ) {
                        KcsdiApp::is_delivered(
                            self.state.workspace.traces@[i],
                            before[i],
                            delivery.snapshot,
                            cycle,
                            distances@[i]@,
                        )
                    } else {
                        self.state.workspace.traces@[i] == before[i]
                    },
            decreases before.len() - index,
        {
            let ghost traces = self.state.workspace.traces@;
            let trace = &self.state.workspace.traces[index];
            assert(trace == before[index as int]);
            let asked = match &wanted[index] {
                Some(settings) => settings.same(&group.settings),
                None => false,
            };
            let newer = match trace.last_completed_cycle {
                Some(last) => cycle > last,
                None => true,
            };
            if trace.settings.visible && contains_id(&delivery.members, trace.id) && asked
                && trace.settings.display.accepts(&delivery.snapshot.data) && newer {
                let obsolete = match &trace.preview {
                    Some(preview) => preview.cycle_id <= cycle,
                    None => false,
                };
                self.state.workspace.traces[index].last_completed_cycle = Some(cycle);
                if obsolete {
                    self.state.workspace.traces[index].preview = None;
                }
                self.state.workspace.traces[index].analysis.observe(
                    &delivery.snapshot,
                    &distances[index],
                );
                self.state.workspace.traces[index].completed = Some(delivery.snapshot.clone());
                self.state.workspace.traces[index].needs_fit = true;
                assert(KcsdiApp::is_delivered(
                    self.state.workspace.traces@[index as int],
                    before[index as int],
                    delivery.snapshot,
                    cycle,
                    distances@[index as int]@,
                ));
            }
            assert forall|i: int| 0 <= i < before.len() && i != index implies #[trigger] self.state.workspace.traces@[i]
                == traces[i] by {}
            index = index + 1;
        }
        self.state.status_message = None;
    }

    /// Whether a preview goes to a trace.
    pub open spec fn previews(
        trace: TraceState,
        preview: PreviewEnvelope,
        wanted: Option<AcquisitionSettings>,
    ) -> bool {
        &&& trace.settings.visible
        &&& preview.group@.members.contains(trace.id)
        &&& wanted is Some && wanted->0@ == preview.group@.settings
        &&& trace.settings.display.reads(preview.data@)
        &&& trace.last_completed_cycle matches Some(last) ==> preview.cycle_id > last
        &&& trace.preview matches Some(last) ==> preview.cycle_id >= last.cycle_id
    }

    /// Whether a preview is taken at all: it is of this session and request, its
    /// group is wanted, and its rows fit.
    pub open spec fn takes_preview(self, preview: PreviewEnvelope) -> bool {
        let settings = preview.group@.settings;
        &&& preview.session_id == self.state.session_id
        &&& preview.request_id == self.state.request_id
        &&& self.wants(preview.group@)
        &&& preview.data@.mode == settings.mode()
        &&& preview.data@.format == settings.format()
        &&& preview.data@.points.len() <= settings.points()
    }

    /// Hand rows of a sweep under way to their traces.
    pub fn apply_preview(
        &mut self,
        preview: PreviewEnvelope,
        wanted: &Vec<Option<AcquisitionSettings>>,
    )
        requires
            wanted@.len() == old(self).state.workspace.traces@.len(),
        ensures
            !old(self).takes_preview(preview) ==> *final(self) == *old(self),
            old(self).takes_preview(preview) ==> ({
                let before = old(self).state.workspace.traces@;
                let after = final(self).state.workspace.traces@;
                &&& *final(self) == (KcsdiApp {
                    state: AppState {
                        workspace: Workspace {
                            traces: final(self).state.workspace.traces,
                            ..old(self).state.workspace
                        },
                        ..old(self).state
                    },
                    ..*old(self)
                })
                &&& after.len() == before.len()
                &&& forall|i: int|
                    0 <= i < before.len() ==> #[trigger] after[i] == if KcsdiApp::previews(
                        before[i],
                        preview,
                        wanted@[i],
                    ) {
                        TraceState { preview: Some(Arc::new(preview)), ..before[i] }
                    } else {
                        before[i]
                    }
            }),
    {
        if preview.session_id != self.state.session_id || preview.request_id
            != self.state.request_id || !self.accepts_group(&preview.group) || preview.data.mode
            != preview.group.settings.mode() || !same_text(
            preview.data.format.as_str(),
            preview.group.settings.format(),
        ) || preview.data.points.len() as u64 > preview.group.settings.points() as u64 {
            return;
        }
        let preview = Arc::new(preview);
        let ghost before = self.state.workspace.traces@;
        let mut index: usize = 0;
        while index < self.state.workspace.traces.len()
            invariant
                index <= self.state.workspace.traces@.len() == before.len(),
                before == old(self).state.workspace.traces@,
                wanted@.len() == before.len(),
                *self == (KcsdiApp {
                    state: AppState {
                        workspace: Workspace {
                            traces: self.state.workspace.traces,
                            ..old(self).state.workspace
                        },
                        ..old(self).state
                    },
                    ..*old(self)
                }),
                forall|i: int|
                    0 <= i < before.len() ==> #[trigger] self.state.workspace.traces@[i] == if i
                        < index && KcsdiApp::previews(before[i], *preview, wanted@[i]) {
                        TraceState { preview: Some(preview), ..before[i] }
                    } else {
                        before[i]
                    },
            decreases before.len() - index,
        {
            let trace = &self.state.workspace.traces[index];
            let asked = match &wanted[index] {
                Some(settings) => settings.same(&preview.group.settings),
                None => false,
            };
            let newer = match trace.last_completed_cycle {
                Some(last) => preview.cycle_id > last,
                None => true,
            };
            let later = match &trace.preview {
                Some(last) => preview.cycle_id >= last.cycle_id,
                None => true,
            };
            if trace.settings.visible && contains_id(&preview.group.members, trace.id) && asked
                && trace.settings.display.accepts(&preview.data) && newer && later {
                self.state.workspace.traces[index].preview = Some(preview.clone());
            }
            index = index + 1;
        }
    }

    /// Whether an event concerns the current session, and the current request
    /// where it belongs to one.
    pub open spec fn concerns(self, envelope: EventEnvelope) -> bool {
        &&& envelope.session_id == self.state.session_id
        &&& request_scoped(envelope.event) ==> envelope.request_id == self.state.request_id
    }

    /// Take an event of the worker. Results belong to a request, but loss of its
    /// link affects the session.
    pub fn apply_worker_event(
        &mut self,
        envelope: EventEnvelope,
        wanted: &Vec<Option<AcquisitionSettings>>,
        distances: &Vec<Vec<Vec<Real>>>,
        now: u128,
    ) -> (effects: Vec<UiEffect>)
        requires
            wanted@.len() == old(self).state.workspace.traces@.len(),
            distances@.len() == old(self).state.workspace.traces@.len(),
        ensures
            !old(self).concerns(envelope) ==> *final(self) == *old(self) && effects@.len() == 0,
            old(self).concerns(envelope) && !(envelope.event is SweepTrace) ==> final(self).is_applied(*old(self), envelope.event, now, effects@),
            old(self).concerns(envelope) && envelope.event is SweepTrace ==> effects@.len() == 0
                && ({
                let delivery = envelope.event->SweepTrace_0;
                let before = old(self).state.workspace.traces@;
                let after = final(self).state.workspace.traces@;
                if envelope.cycle_id is None || !old(self).takes(delivery) {
                    *final(self) == *old(self)
                } else {
                    &&& *final(self) == (KcsdiApp {
                        state: AppState {
                            status_message: None,
                            workspace: Workspace {
                                traces: final(self).state.workspace.traces,
                                ..old(self).state.workspace
                            },
                            ..old(self).state
                        },
                        ..*old(self)
                    })
                    &&& after.len() == before.len()
                    &&& forall|i: int|
                        #![trigger after[i]]
                        0 <= i < before.len() ==> if KcsdiApp::delivers(
                            before[i],
                            delivery,
                            envelope.cycle_id->0,
                            wanted@[i],
                        ) {
                            KcsdiApp::is_delivered(
                                after[i],
                                before[i],
                                delivery.snapshot,
                                envelope.cycle_id->0,
                                distances@[i]@,
                            )
                        } else {
                            after[i] == before[i]
                        }
                }
            }),
    {
        if envelope.session_id != self.state.session_id {
            return Vec::new();
        }
        let scoped = matches!(
            envelope.event,
            WorkerEvent::SweepTrace(_)
            | WorkerEvent::SweepStopped
            | WorkerEvent::RunProgress(_)
            | WorkerEvent::SourceReport(_)
            | WorkerEvent::CalibrationReport(_)
            | WorkerEvent::Error(_)
        );
        if scoped && envelope.request_id != self.state.request_id {
            return Vec::new();
        }
        match envelope.event {
            WorkerEvent::SweepTrace(delivery) => {
                if let Some(cycle) = envelope.cycle_id {
                    self.apply_delivery(delivery, cycle, wanted, distances);
                }
                Vec::new()
            },
            event => self.apply_event(event, now),
        }
    }
}

/// What the main window finds out at the end of a frame.
#[derive(Debug)]
pub struct FrameResults {
    /// Whether the connection window is still open.
    pub connection_open: bool,
    /// A frequency list that the user has confirmed.
    pub list: Option<Vec<u64>>,
    /// Run settings that the user has confirmed.
    pub run: Option<RunSettings>,
    /// A directory that the user wants to see.
    pub directory: Option<String>,
}

/// An entry of the instrument's menu.
#[derive(Debug, Clone, Copy, PartialEq, Eq, Structural)]
pub enum MenuAction {
    Devices,
    Function(InstrumentFunction),
    Calibration,
    AddTrace,
    Settings,
    About,
}

/// What the instrument page offers.
#[derive(Debug, Clone, Copy, PartialEq, Eq, Structural)]
pub struct InstrumentView {
    pub can_calibrate: bool,
    pub can_add: bool,
    /// Whether the page of a source is shown in place of the charts.
    pub source_page: bool,
}

/// Which charts are shown.
#[derive(Debug, Clone, Copy, PartialEq, Eq, Structural)]
pub enum PlotRegions {
    Cartesian,
    Smith,
    Both,
}

/// Whether any visible trace is drawn on a Smith chart, or on none.
pub open spec fn has_region(traces: Seq<TraceState>, smith: bool) -> bool {
    exists|i: int|
        0 <= i < traces.len() && (#[trigger] traces[i]).settings.visible
            && traces[i].settings.display.smith() == smith
}

/// The charts that the visible traces need. Without any, the plain chart is
/// shown.
pub fn plot_regions(workspace: &Workspace) -> (regions: PlotRegions)
    ensures
        regions == if !has_region(workspace.traces@, true) {
            PlotRegions::Cartesian
        } else if has_region(workspace.traces@, false) {
            PlotRegions::Both
        } else {
            PlotRegions::Smith
        },
{
    let mut cartesian = false;
    let mut smith = false;
    let mut index: usize = 0;
    while index < workspace.traces.len()
        invariant
            index <= workspace.traces@.len(),
            cartesian ==> has_region(workspace.traces@, false),
            smith ==> has_region(workspace.traces@, true),
            forall|i: int|
                0 <= i < index && (#[trigger] workspace.traces@[i]).settings.visible ==> if workspace.traces@[i].settings.display.smith() {
                    smith
                } else {
                    cartesian
                },
        decreases workspace.traces@.len() - index,
    {
        let trace = &workspace.traces[index];
        if trace.settings.visible {
            assert(workspace.traces@[index as int].settings.visible);
            if trace.settings.display.is_smith() {
                smith = true;
            } else {
                cartesian = true;
            }
        }
        index = index + 1;
    }
    if !smith {
        PlotRegions::Cartesian
    } else if cartesian {
        PlotRegions::Both
    } else {
        PlotRegions::Smith
    }
}

/// What the window says while it closes.
pub fn closing_text(frequency_pending: bool, run_pending: bool, export_pending: bool) -> (key: Text)
    ensures
        key == if frequency_pending {
            Text::FrequencyFilePending
        } else if run_pending {
            Text::RunFilePending
        } else if export_pending {
            Text::ExportCancelHelp
        } else {
            Text::Closing
        },
{
    if frequency_pending {
        Text::FrequencyFilePending
    } else if run_pending {
        Text::RunFilePending
    } else if export_pending {
        Text::ExportCancelHelp
    } else {
        Text::Closing
    }
}

/// Whether a key press switches the full screen: the new setting, if so.
pub fn toggled_fullscreen(key_pressed: bool, fullscreen: Option<bool>) -> (set: Option<bool>)
    ensures
        set == if key_pressed {
            Some(!(fullscreen == Some(true)))
        } else {
            None
        },
{
    if !key_pressed {
        return None;
    }
    match fullscreen {
        Some(full) => Some(!full),
        None => Some(true),
    }
}

/// What a frame finds out about the settings.
#[derive(Debug, Clone, Copy, PartialEq, Eq, Structural)]
pub struct SettingsFrame {
    /// Whether they differ from what was written last.
    pub changed: bool,
    /// Whether they differ from what they were in the frame before.
    pub edited: bool,
    pub now: u128,
}

/// The time from which a frame's quiet period counts.
pub open spec fn quiet_since(last_edit: Option<u128>, frame: SettingsFrame) -> u128 {
    if frame.edited || last_edit is None {
        frame.now
    } else {
        last_edit->0
    }
}

/// Whether a frame writes the settings: they changed, and the quiet period after
/// the last edit is over.
pub open spec fn writes(last_edit: Option<u128>, frame: SettingsFrame) -> bool {
    frame.changed && !frame.edited && frame.now - quiet_since(last_edit, frame)
        >= CONFIG_SAVE_DELAY
}

/// The last edit that is not written after a frame.
pub open spec fn unwritten(last_edit: Option<u128>, frame: SettingsFrame) -> Option<u128> {
    if frame.changed && !writes(last_edit, frame) {
        Some(quiet_since(last_edit, frame))
    } else {
        None
    }
}

/// The last edit that is not written after the first `count` frames.
pub open spec fn unwritten_after(frames: Seq<SettingsFrame>, count: int) -> Option<u128>
    decreases count,
{
    if count <= 0 {
        None
    } else {
        unwritten(unwritten_after(frames, count - 1), frames[count - 1])
    }
}

/// Whether a frame of a sequence writes the settings.
pub open spec fn writes_at(frames: Seq<SettingsFrame>, index: int) -> bool {
    writes(unwritten_after(frames, index), frames[index])
}

/// Whether the clock of a sequence of frames never goes back.
pub open spec fn in_time(frames: Seq<SettingsFrame>) -> bool {
    forall|i: int, j: int|
        0 <= i <= j < frames.len() ==> (#[trigger] frames[i]).now <= (#[trigger] frames[j]).now
}

/// Whether the settings of a sequence of frames change by edits alone, and are
/// no longer changed once they are written.
pub open spec fn edited_only(frames: Seq<SettingsFrame>) -> bool {
    forall|i: int|
        0 < i < frames.len() && !(#[trigger] frames[i]).edited ==> frames[i].changed == (
        frames[i - 1].changed && !writes_at(frames, i - 1))
}

impl KcsdiApp {
    /// What asking to close does at once: everything in the background is given
    /// up, and the worker is told to end.
    pub open spec fn close_effects() -> Seq<UiEffect> {
        seq![
            UiEffect::CancelExport,
            UiEffect::CancelFrequencyEditor,
            UiEffect::CancelRunEditor,
            UiEffect::CancelFolderOpener,
            UiEffect::Shutdown,
        ]
    }

    /// The window after it was asked to close.
    pub open spec fn asked_to_close(self) -> Self {
        KcsdiApp {
            closing: true,
            state: AppState {
                desktop: DesktopState {
                    lookup: self.state.desktop.lookup.given_up(),
                    ..self.state.desktop
                },
                ..self.state
            },
            ..self
        }
    }

    /// Decide whether the window may close. It stays until the worker's thread
    /// has ended and nothing in the background is left. `others_pending` is
    /// whether an export, an editor's file or a folder is still pending.
    pub fn poll_close(&mut self, requested: bool, worker_finished: bool, others_pending: bool) -> (
        effects: Vec<UiEffect>)
        ensures
            ({
                let begins = requested && !old(self).closing;
                let after = if begins {
                    old(self).asked_to_close()
                } else {
                    *old(self)
                };
                let first = if begins {
                    KcsdiApp::close_effects()
                } else {
                    seq![]
                };
                let lookups = after.state.desktop.lookup;
                if !after.closing {
                    *final(self) == after && effects@ == first
                } else if after.worker && !worker_finished {
                    *final(self) == after && effects@ == first + seq![UiEffect::KeepOpen(20)]
                } else {
                    let joined = if after.worker {
                        first + seq![UiEffect::JoinWorker, UiEffect::CloseCommands]
                    } else {
                        first + seq![UiEffect::CloseCommands]
                    };
                    &&& *final(self) == (KcsdiApp { worker: false, ..after })
                    &&& effects@ == if others_pending || lookups.ports.job is Some
                        || lookups.discovery.job is Some {
                        joined + seq![UiEffect::KeepOpen(50)]
                    } else {
                        joined + seq![UiEffect::CloseWindow]
                    }
                }
            }),
    {
        let mut effects: Vec<UiEffect> = Vec::new();
        if requested && !self.closing {
            self.closing = true;
            effects.push(UiEffect::CancelExport);
            effects.push(UiEffect::CancelFrequencyEditor);
            effects.push(UiEffect::CancelRunEditor);
            self.state.desktop.lookup.cancel();
            effects.push(UiEffect::CancelFolderOpener);
            effects.push(UiEffect::Shutdown);
            assert(effects@ =~= KcsdiApp::close_effects());
        }
        let ghost first = effects@;
        assert(!(requested && !old(self).closing) ==> first =~= seq![]);
        if !self.closing {
            return effects;
        }
        if self.worker && !worker_finished {
            effects.push(UiEffect::KeepOpen(20));
            assert(effects@ =~= first + seq![UiEffect::KeepOpen(20)]);
            return effects;
        }
        if self.worker {
            self.worker = false;
            effects.push(UiEffect::JoinWorker);
        }
        effects.push(UiEffect::CloseCommands);
        let ghost joined = effects@;
        assert(joined =~= if old(self).worker {
            first + seq![UiEffect::JoinWorker, UiEffect::CloseCommands]
        } else {
            first + seq![UiEffect::CloseCommands]
        });
        if others_pending || self.state.desktop.lookup.is_pending() {
            effects.push(UiEffect::KeepOpen(50));
            assert(effects@ =~= joined + seq![UiEffect::KeepOpen(50)]);
            return effects;
        }
        effects.push(UiEffect::CloseWindow);
        assert(effects@ =~= joined + seq![UiEffect::CloseWindow]);
        effects
    }

    /// Decide whether changed settings are written now: after a quiet period, so
    /// that a burst of edits leads to one write at most. `changed` is whether
    /// they differ from what was written last, `edited` whether they differ from
    /// what they were in the frame before.
    pub fn persist_config_debounced(&mut self, changed: bool, edited: bool, now: u128) -> (save:
        bool)
        ensures
            save == writes(old(self).dirty_since, SettingsFrame { changed, edited, now }),
            *final(self) == (KcsdiApp {
                dirty_since: unwritten(
                    old(self).dirty_since,
                    SettingsFrame { changed, edited, now },
                ),
                ..*old(self)
            }),
    {
        if !changed {
            self.dirty_since = None;
            return false;
        }
        let since: u128 = match self.dirty_since {
            Some(since) => if edited {
                now
            } else {
                since
            },
            None => now,
        };
        if !edited && now >= since && now - since >= CONFIG_SAVE_DELAY {
            self.dirty_since = None;
            true
        } else {
            self.dirty_since = Some(since);
            false
        }
    }

    /// Begin a frame: tell of a folder that could not be opened, and say whether
    /// to look again soon.
    pub fn begin_frame(&mut self, folder_error: Option<Message>, folder_pending: bool) -> (soon:
        bool)
        ensures
            *final(self) == (KcsdiApp {
                state: AppState {
                    status_message: match folder_error {
                        Some(message) => Some(StatusMessage::Message(message)),
                        None => old(self).state.status_message,
                    },
                    ..old(self).state
                },
                ..*old(self)
            }),
            soon == (folder_pending || old(self).state.desktop.lookup.ports.job is Some || old(self).state.desktop.lookup.discovery.job is Some),
    {
        if let Some(message) = folder_error {
            self.state.status_message = Some(StatusMessage::Message(message));
        }
        folder_pending || self.state.desktop.lookup.is_pending()
    }

    /// What the end of the worker's events means. `gone` is whether the worker
    /// has dropped its end.
    pub fn events_drained(&self, gone: bool) -> (effects: Vec<UiEffect>)
        ensures
            effects@ == if gone && self.worker && !self.closing {
                seq![UiEffect::WorkerStopped]
            } else {
                seq![]
            },
    {
        let mut effects: Vec<UiEffect> = Vec::new();
        if gone && self.worker && !self.closing {
            effects.push(UiEffect::WorkerStopped);
        }
        assert(effects@ =~= if gone && self.worker && !self.closing {
            seq![UiEffect::WorkerStopped]
        } else {
            seq![]
        });
        effects
    }

    /// End a frame: take over what the editors gave, unless the window closes. A
    /// lookup of ports ends with the connection window.
    pub fn finish_frame(&mut self, results: FrameResults) -> (effects: Vec<UiEffect>)
        ensures
            ({
                let taken = !old(self).closing;
                let lookup = old(self).state.desktop.lookup;
                &&& *final(self) == (KcsdiApp {
                    connection_open: results.connection_open,
                    state: AppState {
                        desktop: DesktopState {
                            lookup: DeviceLookup {
                                ports: if old(self).connection_open && !results.connection_open {
                                    lookup.ports.cancelled()
                                } else {
                                    lookup.ports
                                },
                                ..lookup
                            },
                            ..old(self).state.desktop
                        },
                        workspace: Workspace {
                            frequencies_hz: if taken && results.list is Some {
                                results.list->0
                            } else {
                                old(self).state.workspace.frequencies_hz
                            },
                            sweep_mode: if taken && results.list is Some {
                                SweepMode::List
                            } else {
                                old(self).state.workspace.sweep_mode
                            },
                            run: if taken && results.run is Some {
                                results.run->0
                            } else {
                                old(self).state.workspace.run
                            },
                            ..old(self).state.workspace
                        },
                        ..old(self).state
                    },
                    ..*old(self)
                })
                &&& effects@ == (if taken && results.list is Some {
                    seq![UiEffect::ResetFrequencyView]
                } else {
                    seq![]
                }) + (if taken && results.directory is Some {
                    seq![UiEffect::OpenFolder(results.directory->0)]
                } else {
                    seq![]
                }) + (if taken {
                    seq![UiEffect::ReconcilePlan, UiEffect::ShowCalibration]
                } else {
                    seq![UiEffect::ReconcilePlan]
                })
            }),
    {
        let mut effects: Vec<UiEffect> = Vec::new();
        if self.connection_open && !results.connection_open {
            self.state.desktop.lookup.ports.cancel();
        }
        self.connection_open = results.connection_open;
        let taken = !self.closing;
        let listed = results.list.is_some();
        if let Some(list) = results.list {
            if taken {
                self.state.workspace.frequencies_hz = list;
                self.state.workspace.sweep_mode = SweepMode::List;
                effects.push(UiEffect::ResetFrequencyView);
            }
        }
        let ghost first = effects@;
        assert(first =~= if taken && listed {
            seq![UiEffect::ResetFrequencyView]
        } else {
            seq![]
        });
        if let Some(run) = results.run {
            if taken {
                self.state.workspace.run = run;
            }
        }
        if let Some(directory) = results.directory {
            if taken {
                effects.push(UiEffect::OpenFolder(directory));
            }
        }
        let ghost second = effects@;
        assert(second =~= first + (if taken && results.directory is Some {
            seq![UiEffect::OpenFolder(results.directory->0)]
        } else {
            seq![]
        }));
        effects.push(UiEffect::ReconcilePlan);
        if taken {
            effects.push(UiEffect::ShowCalibration);
        }
        assert(effects@ =~= second + (if taken {
            seq![UiEffect::ReconcilePlan, UiEffect::ShowCalibration]
        } else {
            seq![UiEffect::ReconcilePlan]
        }));
        effects
    }

    /// The program ends.
    pub fn on_exit(&mut self) -> (effects: Vec<UiEffect>)
        ensures
            *final(self) == (KcsdiApp {
                worker: false,
                state: AppState {
                    desktop: DesktopState {
                        lookup: old(self).state.desktop.lookup.given_up(),
                        ..old(self).state.desktop
                    },
                    ..old(self).state
                },
                ..*old(self)
            }),
            effects@ == seq![
                UiEffect::SaveConfig,
                UiEffect::CancelFolderOpener,
                UiEffect::Shutdown,
                UiEffect::CloseCommands,
            ] + (if old(self).worker {
                seq![UiEffect::JoinWorker]
            } else {
                seq![]
            }),
    {
        let mut effects: Vec<UiEffect> = Vec::new();
        effects.push(UiEffect::SaveConfig);
        self.state.desktop.lookup.cancel();
        effects.push(UiEffect::CancelFolderOpener);
        effects.push(UiEffect::Shutdown);
        effects.push(UiEffect::CloseCommands);
        let ghost first = effects@;
        if self.worker {
            self.worker = false;
            effects.push(UiEffect::JoinWorker);
        }
        assert(effects@ =~= seq![
            UiEffect::SaveConfig,
            UiEffect::CancelFolderOpener,
            UiEffect::Shutdown,
            UiEffect::CloseCommands,
        ] + (if old(self).worker {
            seq![UiEffect::JoinWorker]
        } else {
            seq![]
        }));
        effects
    }

    /// The window is dropped without an orderly end: every flag is cancelled.
    pub fn dropped(&mut self) -> (effects: Vec<UiEffect>)
        ensures
            *final(self) == (KcsdiApp {
                state: AppState {
                    desktop: DesktopState {
                        lookup: old(self).state.desktop.lookup.given_up(),
                        ..old(self).state.desktop
                    },
                    ..old(self).state
                },
                ..*old(self)
            }),
            effects@ == seq![
                UiEffect::CancelFolderOpener,
                UiEffect::CancelWorker,
                UiEffect::CancelSession,
                UiEffect::CancelAcquisition,
                UiEffect::CloseCommands,
            ],
    {
        self.state.desktop.lookup.cancel();
        let mut effects: Vec<UiEffect> = Vec::new();
        effects.push(UiEffect::CancelFolderOpener);
        effects.push(UiEffect::CancelWorker);
        effects.push(UiEffect::CancelSession);
        effects.push(UiEffect::CancelAcquisition);
        effects.push(UiEffect::CloseCommands);
        assert(effects@ =~= seq![
            UiEffect::CancelFolderOpener,
            UiEffect::CancelWorker,
            UiEffect::CancelSession,
            UiEffect::CancelAcquisition,
            UiEffect::CloseCommands,
        ]);
        effects
    }

    /// Whether the status bar is shown below the desktop.
    pub fn shows_session(&self) -> (shown: bool)
        ensures
            shown == !(self.state.connection is Disconnected),
    {
        !matches!(self.state.connection, ConnectionState::Disconnected)
    }

    pub open spec fn spec_view(self, source_busy: bool) -> InstrumentView {
        InstrumentView {
            can_calibrate: !source_busy,
            can_add: self.state.function is Measurements && self.state.workspace.traces@.len()
                < MAX_TRACES,
            source_page: self.state.function.spec_kind() is Some,
        }
    }

    pub fn instrument_view(&self, source_busy: bool) -> (view: InstrumentView)
        ensures
            view == self.spec_view(source_busy),
    {
        InstrumentView {
            can_calibrate: !source_busy,
            can_add: matches!(self.state.function, InstrumentFunction::Measurements)
                && self.state.workspace.traces.len() < MAX_TRACES,
            source_page: self.state.function.kind().is_some(),
        }
    }

    /// The window after an entry of the instrument's menu, and what follows
    /// outside. An entry that is not offered does nothing.
    pub open spec fn after_menu(self, action: MenuAction, source_busy: bool) -> (
        Self,
        Seq<UiEffect>,
    ) {
        let state = self.state;
        let page = |page: Page|
            KcsdiApp {
                state: AppState { desktop: DesktopState { page, ..state.desktop }, ..state },
                ..self
            };
        match action {
            MenuAction::Devices => (page(Page::Devices), seq![]),
            MenuAction::Settings => (page(Page::Settings), seq![]),
            MenuAction::About => (page(Page::About), seq![]),
            MenuAction::Function(function) => (self, seq![UiEffect::SelectFunction(function)]),
            MenuAction::Calibration => if source_busy {
                (self, seq![])
            } else {
                (
                    KcsdiApp {
                        state: AppState {
                            workspace: Workspace { editor: None, ..state.workspace },
                            calibration: state.calibration.opened(),
                            ..state
                        },
                        ..self
                    },
                    seq![UiEffect::CancelFrequencyEditor, UiEffect::CancelRunEditor],
                )
            },
            MenuAction::AddTrace => if self.spec_view(source_busy).can_add {
                (self, seq![UiEffect::OpenTraceEditor])
            } else {
                (self, seq![])
            },
        }
    }

    /// Carry out an entry of the instrument's menu.
    pub fn menu(&mut self, action: MenuAction, source_busy: bool) -> (effects: Vec<UiEffect>)
        ensures
            (*final(self), effects@) == old(self).after_menu(action, source_busy),
    {
        let mut effects: Vec<UiEffect> = Vec::new();
        match action {
            MenuAction::Devices => {
                self.state.desktop.page = Page::Devices;
            },
            MenuAction::Settings => {
                self.state.desktop.page = Page::Settings;
            },
            MenuAction::About => {
                self.state.desktop.page = Page::About;
            },
            MenuAction::Function(function) => {
                effects.push(UiEffect::SelectFunction(function));
            },
            MenuAction::Calibration => {
                if !source_busy {
                    self.state.workspace.editor = None;
                    effects.push(UiEffect::CancelFrequencyEditor);
                    effects.push(UiEffect::CancelRunEditor);
                    self.state.calibration.open();
                }
            },
            MenuAction::AddTrace => {
                if self.instrument_view(source_busy).can_add {
                    effects.push(UiEffect::OpenTraceEditor);
                }
            },
        }
        assert(effects@ =~= old(self).after_menu(action, source_busy).1);
        effects
    }
}

proof fn lemma_quiet_since(frames: Seq<SettingsFrame>, count: int, index: int)
    requires
        in_time(frames),
        0 <= index < count <= frames.len(),
        frames[index].edited || writes_at(frames, index),
    ensures
        unwritten_after(frames, count) matches Some(since) ==> frames[index].now <= since,
    decreases count,
{
    if index < count - 1 {
        lemma_quiet_since(frames, count - 1, index);
    }
    assert(frames[index].now <= frames[count - 1].now);
}

/// Edits are written only after a quiet period: where a frame writes the
/// settings, neither it nor any frame within the delay before it has edited
/// or written them.
pub proof fn law_edits_rest_before_they_are_written(
    frames: Seq<SettingsFrame>,
    earlier: int,
    index: int,
)
    requires
        in_time(frames),
        0 <= earlier < index < frames.len(),
        writes_at(frames, index),
        frames[earlier].edited || writes_at(frames, earlier),
    ensures
        frames[index].changed && !frames[index].edited,
        frames[index].now - frames[earlier].now >= CONFIG_SAVE_DELAY,
{
    lemma_quiet_since(frames, index, earlier);
    assert(frames[earlier].now <= frames[index].now);
}

/// A burst of edits leads to one write at most: between two writes lies an edit,
/// so that each write follows a quiet period of its own.
pub proof fn law_bursts_are_written_once(frames: Seq<SettingsFrame>, first: int, second: int)
    requires
        in_time(frames),
        edited_only(frames),
        0 <= first < second < frames.len(),
        writes_at(frames, first),
        writes_at(frames, second),
    ensures
        exists|i: int| first < i < second && (#[trigger] frames[i]).edited,
{
    if forall|i: int| first < i < second ==> !(#[trigger] frames[i]).edited {
        lemma_rests(frames, first, second);
    }
}

proof fn lemma_rests(frames: Seq<SettingsFrame>, first: int, count: int)
    requires
        edited_only(frames),
        0 <= first < count < frames.len(),
        writes_at(frames, first),
        forall|i: int| first < i < count ==> !(#[trigger] frames[i]).edited,
    ensures
        !frames[count].edited ==> !frames[count].changed,
    decreases count,
{
    if first < count - 1 {
        assert(!frames[count - 1].edited);
        lemma_rests(frames, first, count - 1);
    }
}

/// No event but a delivery touches a complete measurement: after it, every
/// trace has the same number, settings and last sweep.
pub proof fn law_events_keep_measurements(
    before: KcsdiApp,
    after: KcsdiApp,
    event: WorkerEvent,
    now: u128,
    effects: Seq<UiEffect>,
)
    requires
        after.is_applied(before, event, now, effects),
    ensures
        after.state.workspace.traces@.len() == before.state.workspace.traces@.len(),
        forall|i: int|
            #![trigger after.state.workspace.traces@[i]]
            0 <= i < before.state.workspace.traces@.len() ==> {
                let old_trace = before.state.workspace.traces@[i];
                let new_trace = after.state.workspace.traces@[i];
                &&& new_trace.id == old_trace.id
                &&& new_trace.settings == old_trace.settings
                &&& new_trace.completed == old_trace.completed
                &&& new_trace.analysis == old_trace.analysis
            },
{
    match event {
        WorkerEvent::Disconnected => {
            let gone = choose|gone: AppState|
                {
                    &&& #[trigger] is_disconnected(gone, before.state)
                    &&& after.state == (AppState {
                        status_message: Some(StatusMessage::Text(Text::Disconnected)),
                        ..gone
                    })
                };
            assert(previews_cleared(after.state.workspace, before.state.workspace));
        },
        WorkerEvent::ConnectionLost(message) => {
            let told = calibration_told(before.state, message);
            let gone = choose|gone: AppState|
                {
                    &&& #[trigger] is_disconnected(gone, told)
                    &&& after.state == (AppState {
                        connection: ConnectionState::Error(message),
                        status_message: Some(StatusMessage::Message(message)),
                        ..gone
                    })
                };
            assert(previews_cleared(after.state.workspace, before.state.workspace));
        },
        _ => {},
    }
}

/// A trace never goes back to an earlier cycle, and a preview of a later cycle
/// survives the delivery of an earlier one.
pub proof fn law_cycles_only_advance(
    before: TraceState,
    after: TraceState,
    delivery: SweepDelivery,
    cycle: u64,
    wanted: Option<AcquisitionSettings>,
    distances: Seq<Vec<Real>>,
)
    requires
        KcsdiApp::delivers(before, delivery, cycle, wanted),
        KcsdiApp::is_delivered(after, before, delivery.snapshot, cycle, distances),
    ensures
        after.last_completed_cycle == Some(cycle),
        before.last_completed_cycle matches Some(last) ==> last < cycle,
        after.preview matches Some(preview) ==> preview.cycle_id > cycle && after.preview
            == before.preview,
        !KcsdiApp::delivers(after, delivery, cycle, wanted),
{
}

/// Losing the link ends every operation: nothing runs, nothing is planned, no
/// reading and no calibration request is left.
pub proof fn law_lost_links_end_everything(before: AppState, after: AppState)
    requires
        is_disconnected(after, before),
    ensures
        !after.running(),
        after.active_plan is None,
        after.run_progress is None,
        after.device_info is None,
        after.health == HealthState::unknown(),
        !after.calibration.spec_busy(),
        forall|i: int|
            0 <= i < after.workspace.traces@.len() ==> (
            #[trigger] after.workspace.traces@[i]).preview is None,
{
}

/// A complete sweep goes to the visible traces that it was measured for: those
/// that are listed, that still ask for exactly these conditions, whose
/// projection reads the rows, and that have none of this or a later cycle. They
/// keep it as it is and ask for a fit. All other traces stay as they are, and so
/// does everything where the sweep is not wanted.
pub proof fn law_sweeps_go_to_the_traces_that_asked(
    app: &mut KcsdiApp,
    delivery: SweepDelivery,
    cycle: u64,
    wanted: &Vec<Option<AcquisitionSettings>>,
    distances: &Vec<Vec<Vec<Real>>>,
    i: int,
)
    requires
        wanted@.len() == old(app).state.workspace.traces@.len(),
        distances@.len() == old(app).state.workspace.traces@.len(),
        call_ensures(KcsdiApp::apply_delivery, (app, delivery, cycle, wanted, distances), ()),
        0 <= i < old(app).state.workspace.traces@.len(),
    ensures
        ({
            let before = old(app).state.workspace.traces@[i];
            let after = final(app).state.workspace.traces@[i];
            let sweep = delivery.snapshot;
            let taken = old(app).state.connection is Connected && old(app).state.function is Measurements && old(app).state.sweep is Running && old(app).state.active_plan is Some && (exists|g: int|
                0 <= g < old(app).state.active_plan->0.groups@.len() && (#[trigger] old(app).state.active_plan->0.groups@[g]).settings@ == sweep.settings@ && old(app).state.active_plan->0.groups@[g].members@ == delivery.members@)
                && sweep.session_id == old(app).state.session_id && sweep.data.mode
                == sweep.settings@.mode() && sweep.data.format@ == sweep.settings@.format()
                && sweep.settings@.complete_rows(sweep.data.points@.len());
            let own = before.settings.visible && delivery.members@.contains(before.id)
                && wanted@[i] is Some && wanted@[i]->0@ == sweep.settings@
                && before.settings.display.reads(sweep.data@) && (
            before.last_completed_cycle is None || before.last_completed_cycle->0 < cycle);
            &&& final(app).state.workspace.traces@.len() == old(app).state.workspace.traces@.len()
            &&& taken && own ==> after.completed == Some(sweep) && after.last_completed_cycle
                == Some(cycle) && after.needs_fit && after.analysis.latest == Some(sweep)
                && after.settings == before.settings && after.view == before.view && after.id
                == before.id && (after.preview is Some ==> after.preview == before.preview
                && after.preview->0.cycle_id > cycle) && (before.preview is Some
                && before.preview->0.cycle_id > cycle ==> after.preview == before.preview)
            &&& !(taken && own) ==> after == before
            &&& !taken ==> *final(app) == *old(app)
        }),
{
    let sweep = delivery.snapshot;
    assert(sweep.data@.points.len() == sweep.data.points@.len());
    if old(app).state.active_plan is Some {
        let plan = old(app).state.active_plan->0;
        let group = acquisition::GroupModel {
            settings: sweep.settings@,
            members: delivery.members@,
        };
        assert(plan.models().len() == plan.groups@.len());
        if plan.models().contains(group) {
            let g = choose|g: int| 0 <= g < plan.models().len() && plan.models()[g] == group;
            assert(plan.models()[g] == plan.groups@[g]@);
            assert(plan.groups@[g].settings@ == sweep.settings@);
        }
        if exists|g: int|
            0 <= g < plan.groups@.len() && (#[trigger] plan.groups@[g]).settings@ == sweep.settings@
                && plan.groups@[g].members@ == delivery.members@ {
            let g = choose|g: int|
                0 <= g < plan.groups@.len() && (#[trigger] plan.groups@[g]).settings@
                    == sweep.settings@ && plan.groups@[g].members@ == delivery.members@;
            assert(plan.models()[g] == plan.groups@[g]@);
            assert(plan.models()[g] =~= group);
            assert(plan.models().contains(group));
        }
    }
}

/// Rows of a sweep under way go to the visible traces that they are measured
/// for, and never replace what is complete, nor rows of a later cycle.
pub proof fn law_previews_go_to_the_traces_that_asked(
    app: &mut KcsdiApp,
    preview: PreviewEnvelope,
    wanted: &Vec<Option<AcquisitionSettings>>,
    i: int,
)
    requires
        wanted@.len() == old(app).state.workspace.traces@.len(),
        call_ensures(KcsdiApp::apply_preview, (app, preview, wanted), ()),
        0 <= i < old(app).state.workspace.traces@.len(),
    ensures
        ({
            let before = old(app).state.workspace.traces@[i];
            let after = final(app).state.workspace.traces@[i];
            let settings = preview.group.settings@;
            let taken = preview.session_id == old(app).state.session_id && preview.request_id
                == old(app).state.request_id && old(app).wants(preview.group@)
                && preview.data.mode == settings.mode() && preview.data.format@
                == settings.format() && preview.data.points@.len() <= settings.points();
            let own = before.settings.visible && preview.group.members@.contains(before.id)
                && wanted@[i] is Some && wanted@[i]->0@ == settings
                && before.settings.display.reads(preview.data@) && (
            before.last_completed_cycle is None || before.last_completed_cycle->0
                < preview.cycle_id) && (before.preview is None || before.preview->0.cycle_id
                <= preview.cycle_id);
            &&& taken && own ==> after.preview is Some && *after.preview->0 == preview
            &&& !(taken && own) ==> after.preview == before.preview
            &&& after.completed == before.completed && after.analysis == before.analysis
                && after.settings == before.settings && after.id == before.id && after.view
                == before.view
        }),
{
    assert(preview.data@.points.len() == preview.data.points@.len());
}

/// Results of a group are wanted while a measurement runs on an open link and
/// its plan holds that group.
pub proof fn law_results_are_wanted_while_running(
    app: &KcsdiApp,
    group: &AcquisitionGroup,
    accepted: bool,
)
    requires
        call_ensures(KcsdiApp::accepts_group, (app, group), accepted),
    ensures
        accepted ==> app.state.connection is Connected && app.state.function is Measurements
            && app.state.sweep is Running && app.state.active_plan is Some,
        accepted ==> exists|g: int|
            0 <= g < app.state.active_plan->0.groups@.len() && (
            #[trigger] app.state.active_plan->0.groups@[g])@ == group@,
{
    if accepted {
        let plan = app.state.active_plan->0;
        let g = choose|g: int| 0 <= g < plan.models().len() && plan.models()[g] == group@;
        assert(plan.models()[g] == plan.groups@[g]@);
    }
}

/// An event concerns the window where it is of the present session, and of the
/// present request where it is the answer to one. A link, its loss and the
/// instrument's condition belong to the session.
pub proof fn law_events_of_other_sessions_change_nothing(
    app: &mut KcsdiApp,
    envelope: EventEnvelope,
    wanted: &Vec<Option<AcquisitionSettings>>,
    distances: &Vec<Vec<Vec<Real>>>,
    now: u128,
    effects: Vec<UiEffect>,
)
    requires
        wanted@.len() == old(app).state.workspace.traces@.len(),
        distances@.len() == old(app).state.workspace.traces@.len(),
        call_ensures(
            KcsdiApp::apply_worker_event,
            (app, envelope, wanted, distances, now),
            effects,
        ),
    ensures
        envelope.session_id != old(app).state.session_id ==> *final(app) == *old(app)
            && effects@.len() == 0,
        envelope.request_id != old(app).state.request_id && (envelope.event is SweepTrace
            || envelope.event is SweepStopped || envelope.event is RunProgress
            || envelope.event is SourceReport || envelope.event is CalibrationReport
            || envelope.event is Error) ==> *final(app) == *old(app) && effects@.len() == 0,
        envelope.session_id == old(app).state.session_id && (envelope.event is Connected
            || envelope.event is Disconnected || envelope.event is ConnectionLost
            || envelope.event is Status || envelope.event is StatusFailed) ==> final(app).is_applied(*old(app), envelope.event, now, effects@),
        envelope.event is SweepTrace && envelope.cycle_id is None ==> *final(app) == *old(app),
{
}

/// What each event of the worker does to the window: the link is open, closed or
/// lost as the worker says, and the user is told. Only an open link takes over
/// the instrument's condition, the reports of its source and of a calibration.
pub proof fn law_events_are_shown(
    app: &mut KcsdiApp,
    event: WorkerEvent,
    now: u128,
    effects: Vec<UiEffect>,
)
    requires
        call_ensures(KcsdiApp::apply_event, (app, event, now), effects),
    ensures
        ({
            let before = old(app).state;
            let after = final(app).state;
            let open = before.connection is Connected;
            &&& event matches WorkerEvent::Connected(info) ==> after.connection is Connected
                && after.device_info == Some(info) && after.health.snapshot is None
                && after.status_message == Some(StatusMessage::Text(Text::Connected))
                && effects@.len() == 2 && effects@[0] is SourceConnected && effects@[1] is RefreshStatus
            &&& event is Disconnected ==> after.connection is Disconnected && after.device_info is None
                && after.status_message == Some(StatusMessage::Text(Text::Disconnected))
                && after.sweep is Idle && after.active_plan is None && after.run_progress is None
                && after.health.snapshot is None
            &&& event matches WorkerEvent::ConnectionLost(message) ==> after.connection
                == ConnectionState::Error(message) && after.status_message == Some(
                StatusMessage::Message(message),
            ) && after.sweep is Idle && after.active_plan is None && after.device_info is None
                && after.health.snapshot is None
            &&& event is Disconnected || event is ConnectionLost ==> effects@.len() == 3
                && effects@[0] is SourceLost && effects@[1] is CancelAcquisition
                && effects@[2] is CancelSession
            &&& event matches WorkerEvent::Error(message) ==> after.status_message == Some(
                StatusMessage::Message(message),
            ) && after.sweep is Idle && after.active_plan is None && after.run_progress is None && (
            before.connection is Connecting ==> after.connection == ConnectionState::Error(message))
                && (!(before.connection is Connecting) ==> after.connection == before.connection)
                && effects@.len() == 1 && effects@[0] is SourceLost
            &&& event is SweepStopped && before.sweep is Stopping ==> after.sweep is Idle
                && after.run_progress is None
            &&& event is SweepStopped && !(before.sweep is Stopping) ==> *final(app) == *old(app)
            &&& event matches WorkerEvent::SourceReport(report) ==> *final(app) == *old(app)
                && effects@ == (if open {
                seq![UiEffect::SourceAccept(report)]
            } else {
                seq![]
            })
            &&& event matches WorkerEvent::Status(snapshot) ==> (open ==> after.health.snapshot
                == Some(snapshot) && after.health.error is None && !after.health.pending
                && after.health.answered_at == Some(now)) && (!open ==> *final(app) == *old(app))
            &&& event matches WorkerEvent::StatusFailed(message) ==> (open
                ==> after.health.snapshot == before.health.snapshot && after.health.error == Some(
                message,
            ) && !after.health.pending && after.health.answered_at == Some(now)) && (!open
                ==> *final(app) == *old(app))
            &&& event is CalibrationReport && !open ==> *final(app) == *old(app)
            &&& event is CalibrationReport && open
                ==> after.calibration.is_accepted(
                before.calibration,
                event->CalibrationReport_0,
            )
            &&& event is RunProgress && (!open || !(before.sweep is Running)) ==> *final(app)
                == *old(app)
            &&& event is RunProgress && event->RunProgress_0 is Saved && open && before.sweep is Running
                ==> {
                let path = event->RunProgress_0->path;
                let pass_id = event->RunProgress_0->pass_id;
                let newer = pass_id > 0 && (before.last_recording matches Some(shown) ==> pass_id
                    > shown.0);
                &&& newer ==> after.last_recording == Some((pass_id, path))
                &&& !newer ==> *final(app) == *old(app)
            }
            &&& event is RunProgress && !(event->RunProgress_0 is Saved) && open
                && before.sweep is Running ==> after.run_progress == Some(event->RunProgress_0)
            &&& after.workspace.traces@.len() == before.workspace.traces@.len()
            &&& after.session_id == before.session_id && after.request_id == before.request_id
                && after.target == before.target
        }),
{
}

/// Settings that rest are written: where nothing was edited for a second since
/// the last edit, a frame that finds them changed writes them, and not sooner.
pub proof fn law_resting_edits_are_written(
    app: &mut KcsdiApp,
    changed: bool,
    edited: bool,
    now: u128,
    save: bool,
)
    requires
        call_ensures(KcsdiApp::persist_config_debounced, (app, changed, edited, now), save),
    ensures
        save ==> changed && !edited && old(app).dirty_since is Some && now - old(app).dirty_since->0 >= 1_000_000_000,
        changed && !edited && old(app).dirty_since is Some && now - old(app).dirty_since->0
            >= 1_000_000_000 ==> save && final(app).dirty_since is None,
        changed && edited ==> !save && final(app).dirty_since == Some(now),
        changed && !save && !edited && old(app).dirty_since is Some ==> final(app).dirty_since
            == old(app).dirty_since,
        !changed ==> final(app).dirty_since is None && !save,
{
}

/// The charts that are shown: a Smith chart where a visible trace is drawn on
/// one, and the plain chart where another is, or none at all.
pub proof fn law_charts_follow_the_visible_traces(workspace: &Workspace, regions: PlotRegions)
    requires
        call_ensures(plot_regions, (workspace,), regions),
    ensures
        regions is Smith || regions is Both <==> exists|i: int|
            0 <= i < workspace.traces@.len() && (#[trigger] workspace.traces@[i]).settings.visible
                && workspace.traces@[i].settings.display.smith(),
        regions is Both ==> exists|i: int|
            0 <= i < workspace.traces@.len() && (#[trigger] workspace.traces@[i]).settings.visible
                && !workspace.traces@[i].settings.display.smith(),
        regions is Smith ==> forall|i: int|
            0 <= i < workspace.traces@.len() && (#[trigger] workspace.traces@[i]).settings.visible
                ==> workspace.traces@[i].settings.display.smith(),
{
    if regions is Smith || regions is Both {
        let i = choose|i: int|
            0 <= i < workspace.traces@.len() && (#[trigger] workspace.traces@[i]).settings.visible
                && workspace.traces@[i].settings.display.smith() == true;
        assert(workspace.traces@[i].settings.display.smith());
    } else {
        assert(!has_region(workspace.traces@, true));
        assert forall|i: int|
            0 <= i < workspace.traces@.len() && (#[trigger] workspace.traces@[i]).settings.visible implies !workspace.traces@[i].settings.display.smith() by {}
    }
    if regions is Both {
        let i = choose|i: int|
            0 <= i < workspace.traces@.len() && (#[trigger] workspace.traces@[i]).settings.visible
                && workspace.traces@[i].settings.display.smith() == false;
        assert(!workspace.traces@[i].settings.display.smith());
    }
    if regions is Smith {
        assert(!has_region(workspace.traces@, false));
    }
}

/// The key for the full screen switches it and nothing else does.
pub proof fn law_the_full_screen_is_switched(
    key_pressed: bool,
    fullscreen: Option<bool>,
    set: Option<bool>,
)
    requires
        call_ensures(toggled_fullscreen, (key_pressed, fullscreen), set),
    ensures
        set is Some <==> key_pressed,
        key_pressed && fullscreen == Some(true) ==> set == Some(false),
        key_pressed && fullscreen != Some(true) ==> set == Some(true),
{
}

/// What a window says while it closes: what it waits for, files before an
/// export.
pub proof fn law_closing_windows_say_why(
    frequency_pending: bool,
    run_pending: bool,
    export_pending: bool,
    key: Text,
)
    requires
        call_ensures(closing_text, (frequency_pending, run_pending, export_pending), key),
    ensures
        key is FrequencyFilePending <==> frequency_pending,
        key is RunFilePending <==> run_pending && !frequency_pending,
        key is ExportCancelHelp <==> export_pending && !run_pending && !frequency_pending,
        key is Closing <==> !export_pending && !run_pending && !frequency_pending,
{
}

/// A window that is asked to close gives up what runs in the background and
/// tells the worker to end. It closes only when the worker's thread has ended
/// and nothing is pending, and its thread is joined before that.
pub proof fn law_windows_close_when_all_is_done(
    app: &mut KcsdiApp,
    requested: bool,
    worker_finished: bool,
    others_pending: bool,
    effects: Vec<UiEffect>,
)
    requires
        call_ensures(
            KcsdiApp::poll_close,
            (app, requested, worker_finished, others_pending),
            effects,
        ),
    ensures
        final(app).closing <==> old(app).closing || requested,
        effects@.contains(UiEffect::CloseWindow) ==> final(app).closing && !final(app).worker && (
        old(app).worker ==> worker_finished) && !others_pending,
        effects@.contains(UiEffect::JoinWorker) ==> old(app).worker && worker_finished,
        requested && !old(app).closing ==> effects@.len() >= 5 && effects@[4] is Shutdown
            && effects@[0] is CancelExport,
        !requested && !old(app).closing ==> effects@.len() == 0 && *final(app) == *old(app),
        final(app).closing && old(app).worker && !worker_finished ==> effects@.last()
            == UiEffect::KeepOpen(20) && final(app).worker,
        final(app).closing && !(old(app).worker && !worker_finished) && others_pending
            ==> effects@.last() == UiEffect::KeepOpen(50),
        final(app).closing && !(old(app).worker && !worker_finished) && !others_pending && final(app).state.desktop.lookup.ports.job is None && final(app).state.desktop.lookup.discovery.job is None ==> effects@.last() is CloseWindow,
{
}

/// What the editors gave is taken over while the window stays open: a list is
/// measured from then on, run settings hold from then on.
pub proof fn law_confirmed_edits_are_taken_over(
    app: &mut KcsdiApp,
    results: FrameResults,
    effects: Vec<UiEffect>,
)
    requires
        call_ensures(KcsdiApp::finish_frame, (app, results), effects),
    ensures
        ({
            let before = old(app).state.workspace;
            let after = final(app).state.workspace;
            let taken = !old(app).closing;
            &&& taken && results.list is Some ==> after.frequencies_hz == results.list->0
                && after.sweep_mode is List
            &&& !taken || results.list is None ==> after.frequencies_hz == before.frequencies_hz
                && after.sweep_mode == before.sweep_mode
            &&& taken && results.run is Some ==> after.run == results.run->0
            &&& !taken || results.run is None ==> after.run == before.run
            &&& after.traces == before.traces && after.range == before.range && after.selected
                == before.selected
            &&& effects@.contains(UiEffect::ReconcilePlan)
            &&& final(app).connection_open == results.connection_open
        }),
{
    let last = effects@.len() - 1;
    if old(app).closing {
        assert(effects@[last] == UiEffect::ReconcilePlan);
    } else {
        assert(effects@[last - 1] == UiEffect::ReconcilePlan);
    }
}

/// A menu entry goes where it says. A calibration is not opened while a source
/// is in use, and a trace is added only to measurements with room for it.
pub proof fn law_menus_go_where_they_say(
    app: &mut KcsdiApp,
    action: MenuAction,
    source_busy: bool,
    effects: Vec<UiEffect>,
)
    requires
        call_ensures(KcsdiApp::menu, (app, action, source_busy), effects),
    ensures
        action is Devices ==> final(app).state.desktop.page is Devices,
        action is Settings ==> final(app).state.desktop.page is Settings,
        action is About ==> final(app).state.desktop.page is About,
        action matches MenuAction::Function(function) ==> effects@ == seq![
            UiEffect::SelectFunction(function),
        ] && *final(app) == *old(app),
        action is Calibration && source_busy ==> *final(app) == *old(app) && effects@.len() == 0,
        action is Calibration && !source_busy ==> final(app).state.calibration.open && final(app).state.workspace.editor is None,
        action is AddTrace ==> (effects@.contains(UiEffect::OpenTraceEditor) <==> old(app).state.function is Measurements && old(app).state.workspace.traces@.len() < 10),
        final(app).state.workspace.traces == old(app).state.workspace.traces,
        final(app).state.connection == old(app).state.connection,
{
    if action is AddTrace && old(app).state.function is Measurements && old(app).state.workspace.traces@.len() < 10 {
        assert(effects@[0] == UiEffect::OpenTraceEditor);
    }
}

/// The program's end saves the settings before it tells the worker to end, and
/// joins it last.
pub proof fn law_settings_are_saved_at_the_end(app: &mut KcsdiApp, effects: Vec<UiEffect>)
    requires
        call_ensures(KcsdiApp::on_exit, (app,), effects),
    ensures
        effects@[0] is SaveConfig,
        effects@[2] is Shutdown,
        effects@[3] is CloseCommands,
        old(app).worker ==> effects@.len() == 5 && effects@[4] is JoinWorker,
        !old(app).worker ==> effects@.len() == 4,
        !final(app).worker,
        final(app).state.workspace == old(app).state.workspace,
{
}

/// Without a link nothing runs and no reading is known. What was measured stays,
/// and what was under way is given up.
pub proof fn law_closed_links_end_everything(app: &mut KcsdiApp, effects: Vec<UiEffect>, i: int)
    requires
        call_ensures(KcsdiApp::clear_connection, (app,), effects),
        0 <= i < old(app).state.workspace.traces@.len(),
    ensures
        final(app).state.connection is Disconnected,
        final(app).state.sweep is Idle && final(app).state.active_plan is None && final(app).state.run_progress is None,
        final(app).state.device_info is None && final(app).state.health.snapshot is None && final(app).state.health.error is None && !final(app).state.health.pending,
        final(app).state.target == old(app).state.target,
        final(app).state.workspace.traces@.len() == old(app).state.workspace.traces@.len(),
        final(app).state.workspace.traces@[i].completed == old(app).state.workspace.traces@[i].completed,
        final(app).state.workspace.traces@[i].preview is None,
        effects@ == seq![UiEffect::SourceLost, UiEffect::CancelAcquisition, UiEffect::CancelSession],
{
}

/// What is on the screen: a session unless the link is closed, traces can be
/// added up to the tenth while measuring, and a calibration is possible while
/// the source rests.
pub proof fn law_pages_show_what_is_possible(
    app: &KcsdiApp,
    shown: bool,
    source_busy: bool,
    view: InstrumentView,
)
    requires
        call_ensures(KcsdiApp::shows_session, (app,), shown),
        call_ensures(KcsdiApp::instrument_view, (app, source_busy), view),
    ensures
        !shown <==> app.state.connection is Disconnected,
        view.can_calibrate <==> !source_busy,
        view.can_add <==> app.state.function is Measurements && app.state.workspace.traces@.len()
            < 10,
        view.source_page <==> app.state.function is RfSource || app.state.function is AfSource,
{
}

/// A frame shows what opening a folder failed with, and the next one follows
/// soon while anything is looked up. A worker that is gone is told unless the
/// window closes.
pub proof fn law_frames_follow_while_waiting(
    app: &mut KcsdiApp,
    folder_error: Option<Message>,
    folder_pending: bool,
    soon: bool,
    other: &KcsdiApp,
    gone: bool,
    effects: Vec<UiEffect>,
)
    requires
        call_ensures(KcsdiApp::begin_frame, (app, folder_error, folder_pending), soon),
        call_ensures(KcsdiApp::events_drained, (other, gone), effects),
    ensures
        folder_error matches Some(message) ==> final(app).state.status_message == Some(
            StatusMessage::Message(message),
        ),
        folder_error is None ==> final(app).state.status_message == old(app).state.status_message,
        final(app).state.workspace == old(app).state.workspace,
        soon <==> folder_pending || old(app).state.desktop.lookup.ports.job is Some || old(app).state.desktop.lookup.discovery.job is Some,
        gone && other.worker && !other.closing ==> effects@.len() == 1
            && effects@[0] is WorkerStopped,
        !gone || !other.worker || other.closing ==> effects@.len() == 0,
{
}

/// A program that ends cancels whatever it started, and only then closes the way
/// to its worker. Both lookups are given up.
pub proof fn law_ending_programs_cancel_everything(app: &mut KcsdiApp, effects: Vec<UiEffect>)
    requires
        call_ensures(KcsdiApp::dropped, (app,), effects),
    ensures
        effects@.len() == 5,
        effects@.contains(UiEffect::CancelFolderOpener),
        effects@.contains(UiEffect::CancelWorker),
        effects@.contains(UiEffect::CancelSession),
        effects@.contains(UiEffect::CancelAcquisition),
        effects@.last() is CloseCommands,
        final(app).state.desktop.lookup.ports.closed && final(app).state.desktop.lookup.discovery.closed,
        final(app).state.workspace == old(app).state.workspace,
{
    assert(effects@[0] == UiEffect::CancelFolderOpener);
    assert(effects@[1] == UiEffect::CancelWorker);
    assert(effects@[2] == UiEffect::CancelSession);
    assert(effects@[3] == UiEffect::CancelAcquisition);
}

} // verus!
