//! What the interface asks of the device worker, and what it hears back.

use vstd::prelude::*;

use crate::acquisition::{Checks, SweepDelivery, SweepPlan};
use crate::model::{
    CalibrationParams, CalibrationPrompt, CalibrationReport, ConnectionTarget, DeviceError,
    DeviceInfo, HealthSnapshot, SourceKind, SourceParams, SourceReport,
};
use crate::text::Text;

verus! {

/// Identity of a cancellation flag that several threads share.
#[derive(Debug, Clone, Copy, PartialEq, Eq, Structural)]
pub struct Token {
    pub id: u64,
}

#[derive(Debug)]
pub enum WorkerCommand {
    Connect { target: ConnectionTarget },
    Disconnect,
    Shutdown,
    RunWorkspace(SweepPlan),
    StopSweep,
    StartSource(SourceParams),
    StopSource,
    StartCalibration(CalibrationParams),
    AdvanceCalibration(CalibrationPrompt),
    CancelCalibration,
    RefreshStatus,
}

/// A command with its place in the conversation.
///
/// `checks` holds the verdicts of the run settings and of the driver on the
/// parameters that the command carries.
#[derive(Debug)]
pub struct CommandEnvelope {
    pub session_id: u64,
    pub request_id: u64,
    pub cancel: Token,
    pub command: WorkerCommand,
    pub checks: Checks,
}

impl CommandEnvelope {
    /// Whether the driver's verdicts are complete: one on each group of a plan,
    /// or one on the parameters of a source or a calibration.
    pub open spec fn is_checked(self) -> bool {
        match self.command {
            WorkerCommand::RunWorkspace(plan) => self.checks.devices@.len() == plan.groups@.len(),
            WorkerCommand::StartSource(_) => self.checks.devices@.len() == 1,
            WorkerCommand::StartCalibration(_) => self.checks.devices@.len() == 1,
            _ => true,
        }
    }

    /// Tell whether the driver's verdicts are complete.
    pub fn has_verdicts(&self) -> (complete: bool)
        ensures
            complete == self.is_checked(),
    {
        match &self.command {
            WorkerCommand::RunWorkspace(plan) => self.checks.devices.len() == plan.groups.len(),
            WorkerCommand::StartSource(_) => self.checks.devices.len() == 1,
            WorkerCommand::StartCalibration(_) => self.checks.devices.len() == 1,
            _ => true,
        }
    }
}

/// The operation that a failure belongs to.
#[derive(Debug, Clone, Copy, PartialEq, Eq, Structural)]
pub enum Context {
    Calibration,
    Connect,
    Run,
    Source,
    Status,
    Stop,
    Sweep,
}

impl Context {
    pub open spec fn words(self) -> Seq<char> {
        match self {
            Context::Calibration => "Calibration failed"@,
            Context::Connect => "Connect failed"@,
            Context::Run => "Run failed"@,
            Context::Source => "Source failed"@,
            Context::Status => "Status query failed"@,
            Context::Stop => "Stop failed"@,
            Context::Sweep => "Sweep failed"@,
        }
    }

    pub fn text(self) -> (text: &'static str)
        ensures
            text@ == self.words(),
    {
        match self {
            Context::Calibration => "Calibration failed",
            Context::Connect => "Connect failed",
            Context::Run => "Run failed",
            Context::Source => "Source failed",
            Context::Status => "Status query failed",
            Context::Stop => "Stop failed",
            Context::Sweep => "Sweep failed",
        }
    }
}

/// Why a measurement pass cannot be closed.
#[derive(Debug, PartialEq, Eq)]
pub enum PassError {
    PassIdExhausted,
    ClockRange,
    StillPending,
    /// The recorder's own words.
    Recorder(String),
}

impl PassError {
    pub open spec fn words(self) -> Seq<char> {
        match self {
            PassError::PassIdExhausted => "recording pass ID exhausted"@,
            PassError::ClockRange => "run interval exceeds the host clock range"@,
            PassError::StillPending => "a previous recording task is still pending"@,
            PassError::Recorder(words) => words@,
        }
    }

    pub fn text(&self) -> (text: String)
        ensures
            text@ == self.words(),
    {
        match self {
            PassError::PassIdExhausted => "recording pass ID exhausted".to_owned(),
            PassError::ClockRange => "run interval exceeds the host clock range".to_owned(),
            PassError::StillPending => "a previous recording task is still pending".to_owned(),
            PassError::Recorder(words) => words.clone(),
        }
    }
}

/// What the user is told about a failure.
#[derive(Debug, PartialEq, Eq)]
pub enum Message {
    /// An operation was refused because a calibration is under way.
    CalibrationActive,
    /// A status query was refused because the source may be on.
    SourceBlocksStatus,
    Recording(PassError),
    Failure { context: Context, error: DeviceError },
    Other(String),
}

impl Message {
    /// The words of the message. `detail` is how the driver words the error
    /// that a failure carries.
    pub open spec fn words(self, detail: Seq<char>) -> Seq<char> {
        match self {
            Message::CalibrationActive => "Finish or cancel calibration before another operation"@,
            Message::SourceBlocksStatus => "Stop the source before refreshing status"@,
            Message::Recording(error) => "Recording failed: "@ + error.words(),
            Message::Failure { context, .. } => context.words() + ": "@ + detail,
            Message::Other(words) => words@,
        }
    }

    pub fn text(&self, detail: &str) -> (text: String)
        ensures
            text@ == self.words(detail@),
    {
        match self {
            Message::CalibrationActive => {
                "Finish or cancel calibration before another operation".to_owned()
            },
            Message::SourceBlocksStatus => "Stop the source before refreshing status".to_owned(),
            Message::Recording(error) => {
                let mut text = "Recording failed: ".to_owned();
                let words = error.text();
                text.append(words.as_str());
                text
            },
            Message::Failure { context, .. } => {
                let mut text = context.text().to_owned();
                text.append(": ");
                text.append(detail);
                text
            },
            Message::Other(words) => words.clone(),
        }
    }
}

impl Clone for Message {
    fn clone(&self) -> (copy: Self)
        ensures
            copy == *self,
    {
        match self {
            Message::CalibrationActive => Message::CalibrationActive,
            Message::SourceBlocksStatus => Message::SourceBlocksStatus,
            Message::Recording(error) => Message::Recording(
                match error {
                    PassError::PassIdExhausted => PassError::PassIdExhausted,
                    PassError::ClockRange => PassError::ClockRange,
                    PassError::StillPending => PassError::StillPending,
                    PassError::Recorder(words) => PassError::Recorder(words.clone()),
                },
            ),
            Message::Failure { context, error } => Message::Failure {
                context: *context,
                error: error.clone(),
            },
            Message::Other(words) => Message::Other(words.clone()),
        }
    }
}

/// A line of the status bar: a caption that follows the language, or a message.
#[derive(Debug, PartialEq, Eq)]
pub enum StatusMessage {
    Text(Text),
    Message(Message),
}

impl Clone for StatusMessage {
    fn clone(&self) -> (copy: Self)
        ensures
            copy == *self,
    {
        match self {
            StatusMessage::Text(key) => StatusMessage::Text(*key),
            StatusMessage::Message(message) => StatusMessage::Message(message.clone()),
        }
    }
}

/// Where the link to the instrument stands.
#[derive(Debug, PartialEq, Eq)]
pub enum ConnectionState {
    Disconnected,
    Connecting,
    Connected,
    Disconnecting,
    Error(Message),
}

impl ConnectionState {
    /// Whether a session is open, opening or closing.
    pub open spec fn in_session(self) -> bool {
        self is Connected || self is Connecting || self is Disconnecting
    }

    pub fn is_busy(&self) -> (busy: bool)
        ensures
            busy == self.in_session(),
    {
        matches!(
            self,
            ConnectionState::Connected | ConnectionState::Connecting | ConnectionState::Disconnecting
        )
    }

    /// The state after a request failed: a link that was being opened is not.
    pub open spec fn after_failure(self, message: Message) -> Self {
        if self is Connecting {
            ConnectionState::Error(message)
        } else {
            self
        }
    }

    pub fn request_failed(&mut self, message: &Message)
        ensures
            *final(self) == old(self).after_failure(*message),
    {
        if matches!(self, ConnectionState::Connecting) {
            *self = ConnectionState::Error(message.clone());
        }
    }

    pub fn is_connected(&self) -> (connected: bool)
        ensures
            connected == (*self is Connected),
    {
        matches!(self, ConnectionState::Connected)
    }
}

/// Where the acquisition stands.
#[derive(Debug, Clone, Copy, PartialEq, Eq, Structural)]
pub enum SweepState {
    Idle,
    Running,
    Stopping,
}

/// What the instrument is used for.
#[derive(Debug, Clone, Copy, PartialEq, Eq, Structural)]
pub enum InstrumentFunction {
    Measurements,
    RfSource,
    AfSource,
}

impl InstrumentFunction {
    pub open spec fn spec_kind(self) -> Option<SourceKind> {
        match self {
            InstrumentFunction::Measurements => None,
            InstrumentFunction::RfSource => Some(SourceKind::Rf),
            InstrumentFunction::AfSource => Some(SourceKind::Af),
        }
    }

    /// The source, if the instrument is used as one.
    pub fn kind(self) -> (kind: Option<SourceKind>)
        ensures
            kind == self.spec_kind(),
    {
        match self {
            InstrumentFunction::Measurements => None,
            InstrumentFunction::RfSource => Some(SourceKind::Rf),
            InstrumentFunction::AfSource => Some(SourceKind::Af),
        }
    }
}

/// Where a run stands. Times are nanoseconds of the monotonic clock.
#[derive(Debug, PartialEq, Eq)]
pub enum RunProgress {
    Acquiring,
    Saving,
    Waiting { until: u128 },
    Saved { path: String, pass_id: u64 },
}

#[derive(Debug)]
pub enum WorkerEvent {
    Connected(DeviceInfo),
    Disconnected,
    ConnectionLost(Message),
    Error(Message),
    SweepStopped,
    SweepTrace(SweepDelivery),
    SourceReport(SourceReport),
    CalibrationReport(CalibrationReport),
    RunProgress(RunProgress),
    Status(HealthSnapshot),
    StatusFailed(Message),
}

#[derive(Debug)]
pub struct EventEnvelope {
    pub session_id: u64,
    pub request_id: u64,
    pub cycle_id: Option<u64>,
    pub event: WorkerEvent,
}

/// What a failure says: the operation, then how the driver words it.
pub proof fn law_failures_name_their_operation(message: &Message, detail: &str, text: String)
    requires
        call_ensures(Message::text, (message, detail), text),
    ensures
        *message matches Message::Failure { context, .. } ==> text@ == (match context {
            Context::Calibration => "Calibration failed"@,
            Context::Connect => "Connect failed"@,
            Context::Run => "Run failed"@,
            Context::Source => "Source failed"@,
            Context::Status => "Status query failed"@,
            Context::Stop => "Stop failed"@,
            Context::Sweep => "Sweep failed"@,
        }) + ": "@ + detail@,
        *message is CalibrationActive ==> text@
            == "Finish or cancel calibration before another operation"@,
        *message is SourceBlocksStatus ==> text@ == "Stop the source before refreshing status"@,
        *message matches Message::Recording(PassError::PassIdExhausted) ==> text@
            == "Recording failed: "@ + "recording pass ID exhausted"@,
        *message matches Message::Recording(PassError::ClockRange) ==> text@
            == "Recording failed: "@ + "run interval exceeds the host clock range"@,
        *message matches Message::Recording(PassError::StillPending) ==> text@
            == "Recording failed: "@ + "a previous recording task is still pending"@,
        *message matches Message::Recording(PassError::Recorder(words)) ==> text@
            == "Recording failed: "@ + words@,
        *message matches Message::Other(words) ==> text@ == words@,
{
}

/// A session is open, opening or closing. A link that failed or was closed is
/// no session.
pub proof fn law_sessions_are_busy(state: &ConnectionState, busy: bool, connected: bool)
    requires
        call_ensures(ConnectionState::is_busy, (state,), busy),
        call_ensures(ConnectionState::is_connected, (state,), connected),
    ensures
        !busy <==> *state is Disconnected || *state is Error,
        connected <==> *state is Connected,
        connected ==> busy,
{
}

/// A request that fails while the link is being opened fails the link. An open
/// link stays as it is.
pub proof fn law_failed_requests_keep_an_open_link(state: &mut ConnectionState, message: &Message)
    requires
        call_ensures(ConnectionState::request_failed, (state, message), ()),
    ensures
        *old(state) is Connecting ==> *final(state) == ConnectionState::Error(*message),
        !(*old(state) is Connecting) ==> *final(state) == *old(state),
{
}

/// The source that a function stands for, if any.
pub proof fn law_functions_name_their_source(
    function: InstrumentFunction,
    kind: Option<SourceKind>,
)
    requires
        call_ensures(InstrumentFunction::kind, (function,), kind),
    ensures
        kind is None <==> function is Measurements,
        kind == Some(SourceKind::Rf) <==> function is RfSource,
        kind == Some(SourceKind::Af) <==> function is AfSource,
{
}

/// A command's verdicts are complete with one for each group of a plan, and one
/// for a source or a calibration.
pub proof fn law_commands_carry_their_verdicts(envelope: &CommandEnvelope, complete: bool)
    requires
        call_ensures(CommandEnvelope::has_verdicts, (envelope,), complete),
    ensures
        envelope.command matches WorkerCommand::RunWorkspace(plan) ==> (complete <==>
            envelope.checks.devices@.len() == plan.groups@.len()),
        envelope.command is StartSource || envelope.command is StartCalibration ==> (complete <==>
            envelope.checks.devices@.len() == 1),
        !(envelope.command is RunWorkspace) && !(envelope.command is StartSource) && !(
        envelope.command is StartCalibration) ==> complete,
{
}

/// What the recorder could not do is said in these words, or in its own.
pub proof fn law_recorder_failures_are_worded(error: &PassError, text: String, context: Context, words: &'static str)
    requires
        call_ensures(PassError::text, (error,), text),
        call_ensures(Context::text, (context,), words),
    ensures
        *error is PassIdExhausted ==> text@ == "recording pass ID exhausted"@,
        *error is ClockRange ==> text@ == "run interval exceeds the host clock range"@,
        *error is StillPending ==> text@ == "a previous recording task is still pending"@,
        *error matches PassError::Recorder(own) ==> text@ == own@,
        context is Calibration ==> words@ == "Calibration failed"@,
        context is Connect ==> words@ == "Connect failed"@,
        context is Run ==> words@ == "Run failed"@,
        context is Source ==> words@ == "Source failed"@,
        context is Status ==> words@ == "Status query failed"@,
        context is Stop ==> words@ == "Stop failed"@,
        context is Sweep ==> words@ == "Sweep failed"@,
{
}

} // verus!
