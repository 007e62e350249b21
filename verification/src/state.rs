//! State of the application that all its pages share.

use vstd::prelude::*;

use crate::acquisition::SweepPlan;
use crate::calibration_panel::CalibrationUi;
use crate::config::LegacySweeps;
use crate::desktop::{DesktopState, LanguagePreference};
use crate::messages::{
    ConnectionState, InstrumentFunction, Message, RunProgress, StatusMessage, SweepState,
};
use crate::model::{
    ConnectionTarget, DeviceInfo, HealthSnapshot, SourceOutputState, SourceParams, SourceReport,
};
use crate::text::Language;
use crate::workspace::Workspace;

verus! {

/// Last readings of the instrument's condition. Times are nanoseconds of the
/// monotonic clock.
#[derive(Debug)]
pub struct HealthState {
    pub snapshot: Option<HealthSnapshot>,
    pub pending: bool,
    pub error: Option<Message>,
    /// When the last query was answered.
    pub answered_at: Option<u128>,
}

impl Default for HealthState {
    fn default() -> (health: Self)
        ensures
            health == HealthState::unknown(),
    {
        HealthState { snapshot: None, pending: false, error: None, answered_at: None }
    }
}

impl HealthState {
    /// Nothing was read yet.
    pub open spec fn unknown() -> HealthState {
        HealthState { snapshot: None, pending: false, error: None, answered_at: None }
    }

    pub fn succeed(&mut self, snapshot: HealthSnapshot, now: u128)
        ensures
            *final(self) == (HealthState {
                snapshot: Some(snapshot),
                pending: false,
                error: None,
                answered_at: Some(now),
            }),
    {
        self.snapshot = Some(snapshot);
        self.pending = false;
        self.error = None;
        self.answered_at = Some(now);
    }

    /// A query failed. Earlier readings stay.
    pub fn fail(&mut self, message: Message, now: u128)
        ensures
            *final(self) == (HealthState {
                snapshot: old(self).snapshot,
                pending: false,
                error: Some(message),
                answered_at: Some(now),
            }),
    {
        self.pending = false;
        self.error = Some(message);
        self.answered_at = Some(now);
    }
}

#[derive(Debug, Clone, Copy, PartialEq, Eq, Structural)]
pub enum SourcePending {
    Start,
    Stop,
}

/// Settings of the radio-frequency source.
#[derive(Debug, PartialEq, Eq)]
pub struct RfConfig {
    pub frequency_hz: u64,
    pub modulation: String,
}

/// Settings of the audio-frequency source.
#[derive(Debug, PartialEq, Eq)]
pub struct AfConfig {
    pub frequency_hz: u64,
    pub amplitude_mv: u32,
    pub modulation: String,
    pub pm_phase_deg: i32,
}

/// Settings of both sources.
#[derive(Debug, PartialEq, Eq)]
pub struct SourceConfig {
    pub rf: RfConfig,
    pub af: AfConfig,
}

impl Clone for SourceConfig {
    fn clone(&self) -> (copy: Self)
        ensures
            copy == *self,
    {
        SourceConfig {
            rf: RfConfig {
                frequency_hz: self.rf.frequency_hz,
                modulation: self.rf.modulation.clone(),
            },
            af: AfConfig {
                frequency_hz: self.af.frequency_hz,
                amplitude_mv: self.af.amplitude_mv,
                modulation: self.af.modulation.clone(),
                pm_phase_deg: self.af.pm_phase_deg,
            },
        }
    }
}

/// State of the source page.
#[derive(Debug)]
pub struct SourceUi {
    pub config: SourceConfig,
    pub report: SourceReport,
    pub pending: Option<SourcePending>,
    pub requested: Option<SourceParams>,
}

impl SourceUi {
    /// A page with these settings on which nothing was started.
    pub open spec fn idle(config: SourceConfig) -> SourceUi {
        SourceUi {
            config,
            report: SourceReport { state: SourceOutputState::NotStarted, warning: None },
            pending: None,
            requested: None,
        }
    }

    pub fn with_config(config: SourceConfig) -> (ui: Self)
        ensures
            ui == SourceUi::idle(config),
    {
        SourceUi {
            config,
            report: SourceReport { state: SourceOutputState::NotStarted, warning: None },
            pending: None,
            requested: None,
        }
    }
}

#[derive(Debug)]
pub struct AppState {
    pub language: Language,
    pub language_preference: LanguagePreference,
    pub connection: ConnectionState,
    pub target: ConnectionTarget,
    pub session_id: u64,
    pub request_id: u64,
    pub sweep: SweepState,
    pub active_plan: Option<SweepPlan>,
    pub run_progress: Option<RunProgress>,
    /// Pass and path of the last file that was written.
    pub last_recording: Option<(u64, String)>,
    pub status_message: Option<StatusMessage>,
    pub function: InstrumentFunction,
    pub source: SourceUi,
    pub calibration: CalibrationUi,
    pub health: HealthState,
    pub device_info: Option<DeviceInfo>,
    pub workspace: Workspace,
    pub desktop: DesktopState,
    pub legacy_sweeps: Option<LegacySweeps>,
}

impl AppState {
    /// A state in which nothing was done yet.
    pub fn new(workspace: Workspace, language: Language, sources: SourceConfig) -> (state: Self)
        ensures
            state.workspace == workspace,
            state.language == language,
            state.language_preference is System,
            state.connection is Disconnected,
            state.target matches ConnectionTarget::Tcp { host, port } && host@.len() == 0 && port
                == crate::model::DEFAULT_PORT,
            state.session_id == 0 && state.request_id == 0,
            state.sweep is Idle,
            state.active_plan is None && state.run_progress is None,
            state.last_recording is None && state.status_message is None,
            state.function is Measurements,
            state.source == SourceUi::idle(sources),
            state.calibration == CalibrationUi::fresh(),
            state.health == HealthState::unknown(),
            state.device_info is None,
            state.desktop.is_fresh(),
            state.legacy_sweeps is None,
    {
        AppState {
            language,
            language_preference: LanguagePreference::System,
            connection: ConnectionState::Disconnected,
            target: ConnectionTarget::default(),
            session_id: 0,
            request_id: 0,
            sweep: SweepState::Idle,
            active_plan: None,
            run_progress: None,
            last_recording: None,
            status_message: None,
            function: InstrumentFunction::Measurements,
            source: SourceUi::with_config(sources),
            calibration: CalibrationUi::default(),
            health: HealthState::default(),
            device_info: None,
            workspace,
            desktop: DesktopState::default(),
            legacy_sweeps: None,
        }
    }

    pub open spec fn running(self) -> bool {
        self.sweep is Running
    }

    pub fn any_running(&self) -> (running: bool)
        ensures
            running == self.running(),
    {
        matches!(self.sweep, SweepState::Running)
    }
}

/// A reading replaces the last one and clears its error. A failed query keeps
/// the last reading and tells why. Either one has been answered.
pub proof fn law_failed_queries_keep_readings(
    health: &mut HealthState,
    snapshot: HealthSnapshot,
    now: u128,
    other: &mut HealthState,
    message: Message,
)
    requires
        call_ensures(HealthState::succeed, (health, snapshot, now), ()),
        call_ensures(HealthState::fail, (other, message, now), ()),
    ensures
        final(health).snapshot == Some(snapshot),
        final(health).error is None,
        !final(health).pending && final(health).answered_at == Some(now),
        final(other).snapshot == old(other).snapshot,
        final(other).error == Some(message),
        !final(other).pending && final(other).answered_at == Some(now),
{
}

/// A run goes on until it is stopped: one that is stopping no longer counts.
pub proof fn law_stopping_runs_do_not_run(state: &AppState, running: bool)
    requires
        call_ensures(AppState::any_running, (state,), running),
    ensures
        running <==> state.sweep is Running,
        state.sweep is Stopping || state.sweep is Idle ==> !running,
{
}

/// A page with new settings has started nothing.
pub proof fn law_new_source_pages_are_idle(config: SourceConfig, ui: SourceUi)
    requires
        call_ensures(SourceUi::with_config, (config,), ui),
    ensures
        ui.config == config,
        ui.report.state is NotStarted,
        ui.report.warning is None,
        ui.pending is None && ui.requested is None,
{
}

/// A new state is disconnected, measures, and has done nothing.
pub proof fn law_new_states_have_done_nothing(
    workspace: Workspace,
    language: Language,
    sources: SourceConfig,
    state: AppState,
)
    requires
        call_ensures(AppState::new, (workspace, language, sources), state),
    ensures
        state.workspace == workspace && state.language == language,
        state.connection is Disconnected && state.sweep is Idle,
        state.function is Measurements,
        state.source.config == sources && state.source.report.state is NotStarted,
        state.calibration.frozen is None && !state.calibration.open && !state.calibration.consent,
        state.health.snapshot is None && state.device_info is None,
        state.target is Tcp && state.target->port == 901 && state.target->host@.len() == 0,
        state.desktop.page is Devices && state.desktop.settings.profiles@.len() == 0,
        state.active_plan is None && state.last_recording is None,
{
}

} // verus!
