//! Decisions of the device worker, which owns the instrument connection.
//!
//! The worker's thread performs the calls that these functions ask for and
//! hands back what came of them. Effects are listed in the order in which
//! they have to be carried out.

use std::sync::Arc;
use vstd::prelude::*;

use crate::acquisition;
use crate::acquisition::{Checks, CompletedSweep, SweepPlan, TraceId};
use crate::calibration_control;
use crate::calibration_control::reject_while_active;
use crate::messages::{
    CommandEnvelope, Context, EventEnvelope, Message, PassError, RunProgress, Token, WorkerCommand,
    WorkerEvent,
};
use crate::model::{
    CalibrationParams, CalibrationPhase, CalibrationPrompt, CalibrationReport, ConnectionTarget,
    DeviceError, DeviceInfo, DeviceStatus, HealthSnapshot, PointSettings, SourceOutputState,
    SourceParams, SourceReport, SweepData, SweepPoint,
};

verus! {

/// Events that may wait for the interface.
pub const EVENT_CAPACITY: usize = 16;

/// Pause between the two queries of a status pair, in nanoseconds.
pub const STATUS_COMMAND_GAP: u128 = 100_000_000;

/// How long the worker waits for a command, in nanoseconds.
pub const WORKER_POLL: u128 = 50_000_000;

/// Shortest time between two previews, in nanoseconds.
pub const PREVIEW_INTERVAL: u128 = 50_000_000;

/// A reading of the monotonic clock, and the last moment it can name.
#[derive(Debug, Clone, Copy, PartialEq, Eq, Structural)]
pub struct Clock {
    pub now: u128,
    pub latest: u128,
}

#[derive(Debug, Clone, Copy, PartialEq, Eq, Structural)]
pub enum RunPhase {
    Acquiring,
    Saving,
    Waiting { until: u128 },
}

/// Session and request that a worker's activity belongs to.
#[derive(Debug, Clone, Copy, PartialEq, Eq, Structural)]
pub struct WorkerIdentity {
    pub session_id: u64,
    pub request_id: u64,
}

impl Default for WorkerIdentity {
    fn default() -> (identity: Self)
        ensures
            identity.session_id == 0,
            identity.request_id == 0,
    {
        WorkerIdentity { session_id: 0, request_id: 0 }
    }
}

impl WorkerIdentity {
    pub open spec fn envelope(self, event: WorkerEvent) -> EventEnvelope {
        EventEnvelope {
            session_id: self.session_id,
            request_id: self.request_id,
            cycle_id: None,
            event,
        }
    }

    /// Address an event to this session and request.
    pub fn event(self, event: WorkerEvent) -> (envelope: EventEnvelope)
        ensures
            envelope == self.envelope(event),
    {
        EventEnvelope {
            session_id: self.session_id,
            request_id: self.request_id,
            cycle_id: None,
            event,
        }
    }
}

/// The request that an instrument activity answers to.
#[derive(Debug, Clone, Copy, PartialEq, Eq, Structural)]
pub struct RequestOwner {
    pub identity: WorkerIdentity,
    pub cancel: Token,
}

/// What the worker's thread has to do.
#[derive(Debug)]
pub enum Effect {
    /// Raise a cancellation flag.
    Cancel(Token),
    /// Stop remote control and release the instrument.
    Close,
    /// Let go of the instrument as it is.
    Drop,
    Emit(EventEnvelope),
}

/// A repeating run over a plan's groups.
#[derive(Debug)]
pub struct SweepRequest {
    pub request_id: u64,
    pub cancel: Token,
    pub plan: SweepPlan,
    pub next_group: usize,
    pub pass_id: u64,
    pub pass: Vec<(TraceId, Arc<CompletedSweep>)>,
    pub phase: RunPhase,
}

impl SweepRequest {
    /// Whether the next group exists.
    pub open spec fn wf(self) -> bool {
        self.next_group < self.plan.groups@.len()
    }

    /// Whether nothing has been measured yet.
    pub open spec fn is_new(self, request_id: u64, cancel: Token, plan: SweepPlan) -> bool {
        &&& self.request_id == request_id
        &&& self.cancel == cancel
        &&& self.plan == plan
        &&& self.next_group == 0
        &&& self.pass_id == 1
        &&& self.pass@.len() == 0
    }

    pub fn new(request_id: u64, cancel: Token, plan: SweepPlan) -> (request: Self)
        ensures
            request.is_new(request_id, cancel, plan),
            request.phase is Acquiring,
    {
        SweepRequest {
            request_id,
            cancel,
            plan,
            next_group: 0,
            pass_id: 1,
            pass: Vec::new(),
            phase: RunPhase::Acquiring,
        }
    }

    /// When the next pass may start, if the clock can name that moment.
    pub open spec fn resumes_at(self, clock: Clock) -> int {
        clock.now + self.plan.run.interval_ms * 1_000_000
    }

    /// Close a pass: count it, then go on at once or wait for the interval.
    pub fn finish_pass(&mut self, clock: Clock) -> (result: Result<RunProgress, PassError>)
        ensures
            final(self).request_id == old(self).request_id,
            final(self).cancel == old(self).cancel,
            final(self).plan == old(self).plan,
            final(self).next_group == old(self).next_group,
            final(self).pass == old(self).pass,
            final(self).pass_id == if old(self).pass_id < u64::MAX {
                (old(self).pass_id + 1) as u64
            } else {
                u64::MAX
            },
            match result {
                Ok(progress) => old(self).pass_id < u64::MAX && if old(self).plan.run.interval_ms == 0 {
                    progress is Acquiring && final(self).phase is Acquiring
                } else {
                    old(self).resumes_at(clock) <= clock.latest && progress
                        == (RunProgress::Waiting { until: old(self).resumes_at(clock) as u128 })
                        && final(self).phase == (RunPhase::Waiting {
                        until: old(self).resumes_at(clock) as u128,
                    })
                },
                Err(error) => final(self).phase == old(self).phase && if old(self).pass_id
                    == u64::MAX {
                    error is PassIdExhausted
                } else {
                    error is ClockRange && old(self).plan.run.interval_ms > 0 && old(self).resumes_at(clock) > clock.latest
                },
            },
    {
        if self.pass_id == u64::MAX {
            return Err(PassError::PassIdExhausted);
        }
        self.pass_id = self.pass_id + 1;
        let interval_ms: u64 = self.plan.run.interval_ms;
        if interval_ms == 0 {
            self.phase = RunPhase::Acquiring;
            return Ok(RunProgress::Acquiring);
        }
        let interval: u128 = interval_ms as u128 * 1_000_000;
        if clock.now > clock.latest || interval > clock.latest - clock.now {
            return Err(PassError::ClockRange);
        }
        let until: u128 = clock.now + interval;
        self.phase = RunPhase::Waiting { until };
        Ok(RunProgress::Waiting { until })
    }
}

/// Identity of one recorded pass.
#[derive(Debug, Clone, Copy, PartialEq, Eq, Structural)]
pub struct RecordKey {
    pub session_id: u64,
    pub request_id: u64,
    pub pass_id: u64,
}

/// The recorder's answer: the file, nothing when it was cancelled, or why not.
#[derive(Debug)]
pub struct RecordResult {
    pub key: RecordKey,
    pub result: Result<Option<String>, String>,
}

/// What closing a pass needs next.
#[derive(Debug)]
pub enum PassStep {
    Done(RunProgress),
    Refused(PassError),
    /// Hand the pass to the recorder, then report to `save_submitted`.
    Save { key: RecordKey, snapshots: Vec<(TraceId, Arc<CompletedSweep>)> },
}

/// The one recording that may be under way.
#[derive(Debug)]
pub struct RecordingState {
    pub pending: Option<RecordKey>,
}

impl Default for RecordingState {
    fn default() -> (state: Self)
        ensures
            state.pending is None,
    {
        RecordingState { pending: None }
    }
}

/// Effects of discarding a job: its flag is raised.
pub open spec fn discarded(job: Option<SweepRequest>) -> Seq<Effect> {
    match job {
        Some(job) => seq![Effect::Cancel(job.cancel)],
        None => seq![],
    }
}

pub fn discard_job(job: &mut Option<SweepRequest>, log: &mut Vec<Effect>)
    ensures
        (*final(job)) is None,
        final(log)@ == old(log)@ + discarded(*old(job)),
{
    if let Some(current) = job.take() {
        log.push(Effect::Cancel(current.cancel));
    }
}

/// A single event for `source`.
pub open spec fn emitted(source: WorkerIdentity, event: WorkerEvent) -> Seq<Effect> {
    seq![Effect::Emit(source.envelope(event))]
}

pub(crate) fn emit(source: WorkerIdentity, event: WorkerEvent, log: &mut Vec<Effect>)
    ensures
        final(log)@ == old(log)@ + emitted(source, event),
{
    log.push(Effect::Emit(source.event(event)));
}

/// End a run whose pass could not be kept.
pub fn recording_failed(
    error: PassError,
    job: &mut Option<SweepRequest>,
    source: WorkerIdentity,
    log: &mut Vec<Effect>,
)
    ensures
        (*final(job)) is None,
        final(log)@ == old(log)@ + discarded(*old(job)) + emitted(
            source,
            WorkerEvent::Error(Message::Recording(error)),
        ),
{
    discard_job(job, log);
    emit(source, WorkerEvent::Error(Message::Recording(error)), log);
}

impl RecordKey {
    pub open spec fn source(self) -> WorkerIdentity {
        WorkerIdentity { session_id: self.session_id, request_id: self.request_id }
    }
}

/// Whether a recorder's answer still concerns the running job.
pub open spec fn acknowledges(
    key: RecordKey,
    identity: WorkerIdentity,
    job: Option<SweepRequest>,
    cancelled: bool,
) -> bool {
    &&& job is Some
    &&& !cancelled
    &&& identity.session_id == key.session_id
    &&& job->0.request_id == key.request_id
    &&& job->0.pass_id == key.pass_id
    &&& job->0.phase is Saving
}

/// Whether counting a pass and scheduling the next one succeeds.
pub open spec fn pass_closes(job: SweepRequest, clock: Clock) -> bool {
    job.pass_id < u64::MAX && (job.plan.run.interval_ms == 0 || job.resumes_at(clock)
        <= clock.latest)
}

/// The progress that a closed pass reports.
pub open spec fn progress_after(job: SweepRequest, clock: Clock) -> RunProgress {
    if job.plan.run.interval_ms == 0 {
        RunProgress::Acquiring
    } else {
        RunProgress::Waiting { until: job.resumes_at(clock) as u128 }
    }
}

/// Why a pass cannot be closed.
pub open spec fn pass_refusal(job: SweepRequest) -> PassError {
    if job.pass_id == u64::MAX {
        PassError::PassIdExhausted
    } else {
        PassError::ClockRange
    }
}

/// Effects of a recorder's answer that concerns `job`.
pub open spec fn answer_effects(
    key: RecordKey,
    result: Result<Option<String>, String>,
    job: SweepRequest,
    clock: Clock,
) -> Seq<Effect> {
    match result {
        Ok(Some(path)) => emitted(
            key.source(),
            WorkerEvent::RunProgress(RunProgress::Saved { path, pass_id: key.pass_id }),
        ) + if pass_closes(job, clock) {
            emitted(key.source(), WorkerEvent::RunProgress(progress_after(job, clock)))
        } else {
            discarded(Some(job)) + emitted(
                key.source(),
                WorkerEvent::Error(Message::Recording(pass_refusal(job))),
            )
        },
        Ok(None) => discarded(Some(job)),
        Err(words) => discarded(Some(job)) + emitted(
            key.source(),
            WorkerEvent::Error(Message::Recording(PassError::Recorder(words))),
        ),
    }
}

impl RecordingState {
    /// Close a pass, through the recorder when recording is on.
    pub fn finish_pass(&mut self, session_id: u64, job: &mut SweepRequest, clock: Clock) -> (step:
        PassStep)
        ensures
            final(self).pending == old(self).pending,
            final(job).request_id == old(job).request_id,
            final(job).cancel == old(job).cancel,
            final(job).plan == old(job).plan,
            final(job).next_group == old(job).next_group,
            if !old(job).plan.run.recording.enabled {
                &&& final(job).pass == old(job).pass
                &&& match step {
                    PassStep::Done(progress) => pass_closes(*old(job), clock) && progress
                        == progress_after(*old(job), clock) && final(job).pass_id == old(job).pass_id + 1 && final(job).phase == match progress {
                        RunProgress::Waiting { until } => RunPhase::Waiting { until },
                        _ => RunPhase::Acquiring,
                    },
                    PassStep::Refused(error) => !pass_closes(*old(job), clock) && error
                        == pass_refusal(*old(job)) && final(job).phase == old(job).phase && final(job).pass_id == if old(job).pass_id < u64::MAX {
                        (old(job).pass_id + 1) as u64
                    } else {
                        u64::MAX
                    },
                    PassStep::Save { .. } => false,
                }
            } else if old(self).pending is Some {
                step == PassStep::Refused(PassError::StillPending) && *final(job) == *old(job)
            } else {
                &&& step matches PassStep::Save { key, snapshots }
                &&& key == (RecordKey {
                    session_id,
                    request_id: old(job).request_id,
                    pass_id: old(job).pass_id,
                })
                &&& snapshots == old(job).pass
                &&& final(job).pass@.len() == 0
                &&& final(job).pass_id == old(job).pass_id
                &&& final(job).phase == old(job).phase
            },
    {
        if !job.plan.run.recording.enabled {
            return match job.finish_pass(clock) {
                Ok(progress) => PassStep::Done(progress),
                Err(error) => PassStep::Refused(error),
            };
        }
        if self.pending.is_some() {
            return PassStep::Refused(PassError::StillPending);
        }
        let mut snapshots: Vec<(TraceId, Arc<CompletedSweep>)> = Vec::new();
        std::mem::swap(&mut snapshots, &mut job.pass);
        let key = RecordKey { session_id, request_id: job.request_id, pass_id: job.pass_id };
        PassStep::Save { key, snapshots }
    }

    /// Take the recorder's word on whether it accepted a pass.
    pub fn save_submitted(
        &mut self,
        key: RecordKey,
        accepted: Result<(), String>,
        job: &mut SweepRequest,
    ) -> (result: Result<RunProgress, PassError>)
        ensures
            match accepted {
                Ok(_) => result == Ok::<RunProgress, PassError>(RunProgress::Saving) && final(self).pending == Some(key) && *final(job) == (SweepRequest {
                    phase: RunPhase::Saving,
                    ..*old(job)
                }),
                Err(words) => result == Err::<RunProgress, PassError>(PassError::Recorder(words))
                    && final(self).pending == old(self).pending && *final(job) == *old(job),
            },
    {
        match accepted {
            Ok(_) => {
                self.pending = Some(key);
                job.phase = RunPhase::Saving;
                Ok(RunProgress::Saving)
            },
            Err(words) => Err(PassError::Recorder(words)),
        }
    }

    /// Take a recorder's answer. `cancelled` tells whether the job's flag is
    /// up. An answer for other work only frees the recorder.
    pub fn accept_result(
        &mut self,
        answer: RecordResult,
        identity: WorkerIdentity,
        job: &mut Option<SweepRequest>,
        cancelled: bool,
        clock: Clock,
        log: &mut Vec<Effect>,
    )
        ensures
            if old(self).pending != Some(answer.key) {
                final(self).pending == old(self).pending && *final(job) == *old(job) && final(log)@
                    == old(log)@
            } else if !acknowledges(answer.key, identity, *old(job), cancelled) {
                final(self).pending is None && *final(job) == *old(job) && final(log)@ == old(log)@
            } else {
                &&& final(self).pending is None
                &&& final(log)@ == old(log)@ + answer_effects(
                    answer.key,
                    answer.result,
                    (*old(job))->0,
                    clock,
                )
                &&& if (answer.result matches Ok(Some(_))) && pass_closes((*old(job))->0, clock) {
                    *final(job) == Some(
                        SweepRequest {
                            pass_id: ((*old(job))->0.pass_id + 1) as u64,
                            phase: match progress_after((*old(job))->0, clock) {
                                RunProgress::Waiting { until } => RunPhase::Waiting { until },
                                _ => RunPhase::Acquiring,
                            },
                            ..(*old(job))->0
                        },
                    )
                } else {
                    (*final(job)) is None
                }
            },
    {
        if self.pending != Some(answer.key) {
            return;
        }
        self.pending = None;
        let Some(mut current) = job.take() else {
            return;
        };
        if cancelled || identity.session_id != answer.key.session_id || current.request_id
            != answer.key.request_id || current.pass_id != answer.key.pass_id || current.phase
            != RunPhase::Saving {
            *job = Some(current);
            return;
        }
        let source = WorkerIdentity {
            session_id: answer.key.session_id,
            request_id: answer.key.request_id,
        };
        let result: Result<RunProgress, PassError> = match answer.result {
            Ok(Some(path)) => {
                emit(
                    source,
                    WorkerEvent::RunProgress(
                        RunProgress::Saved { path, pass_id: answer.key.pass_id },
                    ),
                    log,
                );
                current.finish_pass(clock)
            },
            Ok(None) => {
                *job = Some(current);
                discard_job(job, log);
                return;
            },
            Err(words) => Err(PassError::Recorder(words)),
        };
        *job = Some(current);
        match result {
            Ok(progress) => emit(source, WorkerEvent::RunProgress(progress), log),
            Err(error) => recording_failed(error, job, source, log),
        }
        assert(final_log_shape(log@, old(log)@, answer.key, answer.result, (*old(job))->0, clock));
    }
}

spec fn final_log_shape(
    log: Seq<Effect>,
    before: Seq<Effect>,
    key: RecordKey,
    result: Result<Option<String>, String>,
    job: SweepRequest,
    clock: Clock,
) -> bool {
    log =~= before + answer_effects(key, result, job, clock)
}

/// Leave a pause: after a recording, or once the interval is over.
pub fn advance_wait(job: &mut SweepRequest, writer_pending: bool, now: u128) -> (progress: Option<
    RunProgress,
>)
    ensures
        progress is Some <==> !writer_pending && (old(job).phase is Saving || (old(job).phase matches RunPhase::Waiting { until } && now >= until)),
        match progress {
            Some(progress) => progress is Acquiring && *final(job) == (SweepRequest {
                phase: RunPhase::Acquiring,
                ..*old(job)
            }),
            None => *final(job) == *old(job),
        },
{
    if writer_pending {
        return None;
    }
    match job.phase {
        RunPhase::Saving => {},
        RunPhase::Waiting { until } => {
            if now < until {
                return None;
            }
        },
        RunPhase::Acquiring => {
            return None;
        },
    }
    job.phase = RunPhase::Acquiring;
    Some(RunProgress::Acquiring)
}

/// Whether an error means that the link itself is gone.
pub open spec fn loses_connection(error: DeviceError) -> bool {
    error is Io || error is NotConnected || error is Timeout || error is Protocol
}

pub fn connection_failed(error: &DeviceError) -> (failed: bool)
    ensures
        failed == loses_connection(*error),
{
    match error {
        DeviceError::Io(_) => true,
        DeviceError::NotConnected => true,
        DeviceError::Timeout => true,
        DeviceError::Protocol(_) => true,
        _ => false,
    }
}

/// Effects of releasing an instrument that may be there.
pub open spec fn closed(device: Option<DeviceStatus>) -> Seq<Effect> {
    if device is Some {
        seq![Effect::Close]
    } else {
        seq![]
    }
}

pub(crate) fn close(device: &mut Option<DeviceStatus>, log: &mut Vec<Effect>)
    ensures
        (*final(device)) is None,
        final(log)@ == old(log)@ + closed(*old(device)),
{
    if device.is_some() {
        *device = None;
        log.push(Effect::Close);
    }
}

/// Whether a failure ends the session.
pub open spec fn ends_session(error: DeviceError, device: Option<DeviceStatus>) -> bool {
    loses_connection(error) || (device is Some && device->0.requires_reconnect)
}

/// Effects of a failed operation.
pub open spec fn failure_effects(
    error: DeviceError,
    context: Context,
    device: Option<DeviceStatus>,
    job: Option<SweepRequest>,
    source: WorkerIdentity,
) -> Seq<Effect> {
    discarded(job) + if ends_session(error, device) {
        closed(device) + emitted(
            source,
            WorkerEvent::ConnectionLost(Message::Failure { context, error }),
        )
    } else if error is Cancelled {
        seq![]
    } else {
        emitted(source, WorkerEvent::Error(Message::Failure { context, error }))
    }
}

/// The instrument after a failed operation.
pub open spec fn device_after_failure(error: DeviceError, device: Option<DeviceStatus>) -> Option<
    DeviceStatus,
> {
    if ends_session(error, device) {
        None
    } else {
        device
    }
}

/// Give up the job, and the session when its link cannot be trusted.
pub fn fail(
    error: DeviceError,
    context: Context,
    device: &mut Option<DeviceStatus>,
    job: &mut Option<SweepRequest>,
    source: WorkerIdentity,
    log: &mut Vec<Effect>,
)
    ensures
        (*final(job)) is None,
        *final(device) == device_after_failure(error, *old(device)),
        final(log)@ == old(log)@ + failure_effects(
            error,
            context,
            *old(device),
            *old(job),
            source,
        ),
{
    discard_job(job, log);
    let reconnect = match device {
        Some(status) => status.requires_reconnect,
        None => false,
    };
    if connection_failed(&error) || reconnect {
        close(device, log);
        emit(source, WorkerEvent::ConnectionLost(Message::Failure { context, error }), log);
    } else {
        let cancelled = matches!(error, DeviceError::Cancelled);
        if !cancelled {
            emit(source, WorkerEvent::Error(Message::Failure { context, error }), log);
        }
    }
    assert(log@ =~= old(log)@ + failure_effects(error, context, *old(device), *old(job), source));
}

/// Whether a run request for this instrument is turned down, and why.
pub open spec fn run_refusal(
    plan: SweepPlan,
    checks: Checks,
    device: Option<DeviceStatus>,
) -> Option<DeviceError> {
    if acquisition::plan_fault(plan.models(), checks) is Some {
        acquisition::plan_fault(plan.models(), checks)
    } else if device is None {
        Some(DeviceError::NotConnected)
    } else if device->0.source.possible() {
        Some(DeviceError::SourceActive)
    } else {
        None
    }
}

/// Effects of a run request.
pub open spec fn run_effects(
    plan: SweepPlan,
    checks: Checks,
    cancelled: bool,
    device: Option<DeviceStatus>,
    job: Option<SweepRequest>,
    writer_pending: bool,
    source: WorkerIdentity,
) -> Seq<Effect> {
    discarded(job) + if cancelled {
        seq![]
    } else {
        match run_refusal(plan, checks, device) {
            Some(error) => failure_effects(error, Context::Run, device, None, source),
            None => emitted(
                source,
                WorkerEvent::RunProgress(
                    if writer_pending {
                        RunProgress::Saving
                    } else {
                        RunProgress::Acquiring
                    },
                ),
            ),
        }
    }
}

/// Whether a run request starts a new job.
pub open spec fn run_starts(
    plan: SweepPlan,
    checks: Checks,
    cancelled: bool,
    device: Option<DeviceStatus>,
) -> bool {
    !cancelled && run_refusal(plan, checks, device) is None
}

/// The instrument after a run request.
pub open spec fn device_after_run(
    plan: SweepPlan,
    checks: Checks,
    cancelled: bool,
    device: Option<DeviceStatus>,
) -> Option<DeviceStatus> {
    if !cancelled && run_refusal(plan, checks, device) is Some {
        device_after_failure(run_refusal(plan, checks, device)->0, device)
    } else {
        device
    }
}

/// Replace the job by a new one, if the plan can run now. While a recording
/// is being written the new job first waits for it.
pub fn start_sweep(
    plan: SweepPlan,
    checks: &Checks,
    request_id: u64,
    cancel: Token,
    cancelled: bool,
    device: &mut Option<DeviceStatus>,
    job: &mut Option<SweepRequest>,
    writer_pending: bool,
    source: WorkerIdentity,
    log: &mut Vec<Effect>,
)
    requires
        checks.devices@.len() == plan.groups@.len(),
    ensures
        *final(device) == device_after_run(plan, *checks, cancelled, *old(device)),
        final(log)@ == old(log)@ + run_effects(
            plan,
            *checks,
            cancelled,
            *old(device),
            *old(job),
            writer_pending,
            source,
        ),
        if run_starts(plan, *checks, cancelled, *old(device)) {
            &&& (*final(job)) is Some
            &&& (*final(job))->0.is_new(request_id, cancel, plan)
            &&& (*final(job))->0.wf()
            &&& (*final(job))->0.phase == if writer_pending {
                RunPhase::Saving
            } else {
                RunPhase::Acquiring
            }
        } else {
            (*final(job)) is None
        },
{
    discard_job(job, log);
    if cancelled {
        return;
    }
    let ghost after_discard = log@;
    if let Err(error) = plan.validate(checks) {
        fail(error, Context::Run, device, job, source, log);
    } else if device.is_none() {
        fail(DeviceError::NotConnected, Context::Run, device, job, source, log);
    } else if source_possible(device) {
        fail(DeviceError::SourceActive, Context::Run, device, job, source, log);
    } else {
        let mut next = SweepRequest::new(request_id, cancel, plan);
        if writer_pending {
            next.phase = RunPhase::Saving;
            emit(source, WorkerEvent::RunProgress(RunProgress::Saving), log);
        } else {
            emit(source, WorkerEvent::RunProgress(RunProgress::Acquiring), log);
        }
        *job = Some(next);
    }
    assert(log@ =~= old(log)@ + run_effects(
        plan,
        *checks,
        cancelled,
        *old(device),
        *old(job),
        writer_pending,
        source,
    ));
}

fn source_possible(device: &Option<DeviceStatus>) -> (possible: bool)
    ensures
        possible == (*device is Some && (*device)->0.source.possible()),
{
    match device {
        Some(status) => status.source.is_possible(),
        None => false,
    }
}

/// Effects of a source operation's outcome.
pub open spec fn source_effects(
    result: Result<SourceReport, DeviceError>,
    device: Option<DeviceStatus>,
    job: Option<SweepRequest>,
    source: WorkerIdentity,
) -> Seq<Effect> {
    match result {
        Ok(report) => emitted(source, WorkerEvent::SourceReport(report)),
        Err(error) => emitted(
            source,
            WorkerEvent::SourceReport(
                match device {
                    Some(status) => status.source,
                    None => SourceReport { state: SourceOutputState::Unknown, warning: None },
                },
            ),
        ) + failure_effects(error, Context::Source, device, job, source),
    }
}

/// Report a source operation.
pub fn source_result(
    result: Result<SourceReport, DeviceError>,
    device: &mut Option<DeviceStatus>,
    job: &mut Option<SweepRequest>,
    source: WorkerIdentity,
    log: &mut Vec<Effect>,
)
    ensures
        final(log)@ == old(log)@ + source_effects(result, *old(device), *old(job), source),
        match result {
            Ok(_) => *final(device) == *old(device) && *final(job) == *old(job),
            Err(error) => *final(device) == device_after_failure(error, *old(device)) && (
            *final(job)) is None,
        },
{
    match result {
        Ok(report) => emit(source, WorkerEvent::SourceReport(report), log),
        Err(error) => {
            let report = match device {
                Some(status) => status.source,
                None => SourceReport { state: SourceOutputState::Unknown, warning: None },
            };
            emit(source, WorkerEvent::SourceReport(report), log);
            fail(error, Context::Source, device, job, source, log);
        },
    }
    assert(log@ =~= old(log)@ + source_effects(result, *old(device), *old(job), source));
}

/// The report of an instrument that may be gone.
pub open spec fn last_calibration(device: Option<DeviceStatus>) -> CalibrationReport {
    match device {
        Some(status) => status.calibration,
        None => CalibrationReport { kind: None, phase: CalibrationPhase::Unknown },
    }
}

/// Effects of a calibration operation's outcome. A retired instrument is
/// released before anything is reported.
pub open spec fn calibration_effects(
    result: Result<CalibrationReport, DeviceError>,
    device: Option<DeviceStatus>,
    job: Option<SweepRequest>,
    source: WorkerIdentity,
) -> Seq<Effect> {
    match result {
        Ok(report) => emitted(source, WorkerEvent::CalibrationReport(report)),
        Err(error) => if device is Some && device->0.requires_reconnect {
            closed(device) + emitted(
                source,
                WorkerEvent::CalibrationReport(last_calibration(device)),
            ) + discarded(job) + emitted(
                source,
                WorkerEvent::ConnectionLost(
                    Message::Failure { context: Context::Calibration, error },
                ),
            )
        } else {
            emitted(source, WorkerEvent::CalibrationReport(last_calibration(device)))
                + failure_effects(error, Context::Calibration, device, job, source)
        },
    }
}

/// Report a calibration operation.
pub fn calibration_result(
    result: Result<CalibrationReport, DeviceError>,
    device: &mut Option<DeviceStatus>,
    job: &mut Option<SweepRequest>,
    source: WorkerIdentity,
    log: &mut Vec<Effect>,
)
    ensures
        final(log)@ == old(log)@ + calibration_effects(result, *old(device), *old(job), source),
        match result {
            Ok(_) => *final(device) == *old(device) && *final(job) == *old(job),
            Err(error) => *final(device) == device_after_failure(error, *old(device)) && (
            *final(job)) is None,
        },
{
    match result {
        Ok(report) => emit(source, WorkerEvent::CalibrationReport(report), log),
        Err(error) => {
            let (report, retired) = match device {
                Some(status) => (status.calibration, status.requires_reconnect),
                None => (
                    CalibrationReport { kind: None, phase: CalibrationPhase::Unknown },
                    false,
                ),
            };
            if retired {
                close(device, log);
            }
            emit(source, WorkerEvent::CalibrationReport(report), log);
            if retired {
                discard_job(job, log);
                emit(
                    source,
                    WorkerEvent::ConnectionLost(
                        Message::Failure { context: Context::Calibration, error },
                    ),
                    log,
                );
            } else {
                fail(error, Context::Calibration, device, job, source, log);
            }
        },
    }
    assert(log@ =~= old(log)@ + calibration_effects(result, *old(device), *old(job), source));
}

/// A call on the instrument that a command leads to.
#[derive(Debug)]
pub enum DeviceCall {
    /// Open the target, then read its identity. Answer to `connect_result`.
    Connect { target: ConnectionTarget },
    /// Answer to `stop_result`.
    StopSweep,
    /// Stop a sweep, then start the source. Answer to `source_result`.
    StartSource(SourceParams),
    /// Answer to `source_result`.
    StopSource,
    /// Answer to `calibration_result`.
    StartCalibration(CalibrationParams),
    /// Answer to `calibration_result`.
    AdvanceCalibration(CalibrationPrompt),
    /// Answer to `calibration_result`.
    CancelCalibration,
    /// Read temperature, pause, then voltage. Answer to `status_result`.
    Status,
}

/// Report an attempt to connect.
pub fn connect_result(
    result: Result<(DeviceInfo, DeviceStatus), DeviceError>,
    device: &mut Option<DeviceStatus>,
    source: WorkerIdentity,
    log: &mut Vec<Effect>,
)
    ensures
        match result {
            Ok((info, status)) => *final(device) == Some(status) && final(log)@ == old(log)@
                + emitted(source, WorkerEvent::Connected(info)),
            Err(error) => (*final(device)) is None && final(log)@ == if error is Cancelled {
                old(log)@
            } else {
                old(log)@ + emitted(
                    source,
                    WorkerEvent::Error(Message::Failure { context: Context::Connect, error }),
                )
            },
        },
{
    match result {
        Ok((info, status)) => {
            *device = Some(status);
            emit(source, WorkerEvent::Connected(info), log);
        },
        Err(error) => {
            *device = None;
            let cancelled = matches!(error, DeviceError::Cancelled);
            if !cancelled {
                emit(
                    source,
                    WorkerEvent::Error(Message::Failure { context: Context::Connect, error }),
                    log,
                );
            }
        },
    }
}

/// Report an attempt to stop the instrument's sweep.
pub fn stop_result(
    result: Result<(), DeviceError>,
    device: &mut Option<DeviceStatus>,
    job: &mut Option<SweepRequest>,
    source: WorkerIdentity,
    log: &mut Vec<Effect>,
)
    ensures
        match result {
            Ok(_) => *final(device) == *old(device) && *final(job) == *old(job) && final(log)@
                == old(log)@ + emitted(source, WorkerEvent::SweepStopped),
            Err(error) => *final(device) == device_after_failure(error, *old(device)) && (
            *final(job)) is None && final(log)@ == old(log)@ + failure_effects(
                error,
                Context::Stop,
                *old(device),
                *old(job),
                source,
            ),
        },
{
    match result {
        Ok(_) => emit(source, WorkerEvent::SweepStopped, log),
        Err(error) => fail(error, Context::Stop, device, job, source, log),
    }
}

/// Report a status query. A refusal that leaves the link alone ends nothing.
pub fn status_result(
    result: Result<HealthSnapshot, DeviceError>,
    device: &mut Option<DeviceStatus>,
    job: &mut Option<SweepRequest>,
    source: WorkerIdentity,
    log: &mut Vec<Effect>,
)
    ensures
        match result {
            Ok(snapshot) => *final(device) == *old(device) && *final(job) == *old(job) && final(log)@ == old(log)@ + emitted(source, WorkerEvent::Status(snapshot)),
            Err(error) => if ends_session(error, *old(device)) {
                (*final(device)) is None && (*final(job)) is None && final(log)@ == old(log)@
                    + failure_effects(error, Context::Status, *old(device), *old(job), source)
            } else {
                *final(device) == *old(device) && *final(job) == *old(job) && final(log)@
                    == if error is Cancelled {
                    old(log)@
                } else {
                    old(log)@ + emitted(
                        source,
                        WorkerEvent::StatusFailed(
                            Message::Failure { context: Context::Status, error },
                        ),
                    )
                }
            },
        },
{
    match result {
        Ok(snapshot) => emit(source, WorkerEvent::Status(snapshot), log),
        Err(error) => {
            let reconnect = match device {
                Some(status) => status.requires_reconnect,
                None => false,
            };
            if connection_failed(&error) || reconnect {
                fail(error, Context::Status, device, job, source, log);
            } else {
                let cancelled = matches!(error, DeviceError::Cancelled);
                if !cancelled {
                    emit(
                        source,
                        WorkerEvent::StatusFailed(
                            Message::Failure { context: Context::Status, error },
                        ),
                        log,
                    );
                }
            }
        },
    }
}

/// Whether the instrument can be asked for its status now. A source that may
/// be on is reported instead.
pub fn refresh_status(
    device: &Option<DeviceStatus>,
    source: WorkerIdentity,
    log: &mut Vec<Effect>,
) -> (query: bool)
    ensures
        query == (*device is Some && !(*device)->0.source.possible()),
        final(log)@ == if *device is Some && (*device)->0.source.possible() {
            old(log)@ + emitted(source, WorkerEvent::StatusFailed(Message::SourceBlocksStatus))
        } else {
            old(log)@
        },
{
    let Some(status) = device else {
        return false;
    };
    if status.source.is_possible() {
        emit(source, WorkerEvent::StatusFailed(Message::SourceBlocksStatus), log);
        return false;
    }
    true
}

/// What a worker holds while it serves a session.
#[derive(Debug)]
pub struct WorkerState {
    pub identity: WorkerIdentity,
    pub device: Option<DeviceStatus>,
    pub job: Option<SweepRequest>,
}

impl WorkerState {
    /// Whether the running job can go on.
    pub open spec fn wf(self) -> bool {
        self.job is Some ==> self.job->0.wf()
    }
}

/// Whether a command opens or ends a session.
pub open spec fn is_lifecycle(command: WorkerCommand) -> bool {
    command is Connect || command is Disconnect || command is Shutdown
}

/// Whether a command belongs to the present. One that opens or ends a session
/// has to be newer than the session, any other has to belong to it and, but
/// for status queries, must not be older than its latest request.
pub open spec fn admitted(envelope: CommandEnvelope, identity: WorkerIdentity) -> bool {
    if is_lifecycle(envelope.command) {
        envelope.session_id > identity.session_id
    } else {
        envelope.session_id == identity.session_id && (envelope.command is RefreshStatus
            || envelope.request_id >= identity.request_id)
    }
}

/// The identity after a command.
pub open spec fn identity_after(envelope: CommandEnvelope, identity: WorkerIdentity) -> WorkerIdentity {
    if !admitted(envelope, identity) || envelope.command is RefreshStatus {
        identity
    } else {
        WorkerIdentity { session_id: envelope.session_id, request_id: envelope.request_id }
    }
}

/// Whom a command's events are addressed to.
pub open spec fn sender(envelope: CommandEnvelope) -> WorkerIdentity {
    WorkerIdentity { session_id: envelope.session_id, request_id: envelope.request_id }
}

/// Why an operation is not even tried.
pub open spec fn operation_refusal(
    device: Option<DeviceStatus>,
    verdict: Option<DeviceError>,
) -> Option<DeviceError> {
    if device is None {
        Some(DeviceError::NotConnected)
    } else {
        verdict
    }
}

/// Effects of a command that is admitted and not refused by a calibration.
pub open spec fn command_effects(
    envelope: CommandEnvelope,
    cancelled: bool,
    device: Option<DeviceStatus>,
    job: Option<SweepRequest>,
    writer_pending: bool,
) -> Seq<Effect> {
    let source = sender(envelope);
    match envelope.command {
        WorkerCommand::Connect { .. } => discarded(job) + if device is Some {
            seq![Effect::Drop]
        } else {
            seq![]
        },
        WorkerCommand::Disconnect | WorkerCommand::Shutdown => discarded(job) + closed(device)
            + emitted(source, WorkerEvent::Disconnected),
        WorkerCommand::RunWorkspace(plan) => run_effects(
            plan,
            envelope.checks,
            cancelled,
            device,
            job,
            writer_pending,
            source,
        ),
        WorkerCommand::StopSweep => discarded(job) + if device is None {
            emitted(source, WorkerEvent::SweepStopped)
        } else {
            seq![]
        },
        WorkerCommand::StartSource(_) => discarded(job) + if cancelled {
            seq![]
        } else {
            match operation_refusal(device, envelope.checks.device(0)) {
                Some(error) => source_effects(Err(error), device, None, source),
                None => seq![],
            }
        },
        WorkerCommand::StopSource => discarded(job) + match operation_refusal(device, None) {
            Some(error) => source_effects(Err(error), device, None, source),
            None => seq![],
        },
        WorkerCommand::StartCalibration(_) => if cancelled {
            seq![]
        } else {
            match operation_refusal(device, envelope.checks.device(0)) {
                Some(error) => calibration_effects(Err(error), device, job, source),
                None => discarded(job),
            }
        },
        WorkerCommand::AdvanceCalibration(_) | WorkerCommand::CancelCalibration => match
        operation_refusal(device, None) {
            Some(error) => calibration_effects(Err(error), device, job, source),
            None => seq![],
        },
        WorkerCommand::RefreshStatus => if device is Some && device->0.source.possible() {
            emitted(source, WorkerEvent::StatusFailed(Message::SourceBlocksStatus))
        } else {
            seq![]
        },
    }
}

/// The instrument after such a command, before the call that it leads to.
pub open spec fn command_device(
    envelope: CommandEnvelope,
    cancelled: bool,
    device: Option<DeviceStatus>,
) -> Option<DeviceStatus> {
    match envelope.command {
        WorkerCommand::Connect { .. } => None,
        WorkerCommand::Disconnect | WorkerCommand::Shutdown => None,
        WorkerCommand::RunWorkspace(plan) => device_after_run(
            plan,
            envelope.checks,
            cancelled,
            device,
        ),
        WorkerCommand::StartSource(_) | WorkerCommand::StartCalibration(_) => if cancelled {
            device
        } else {
            match operation_refusal(device, envelope.checks.device(0)) {
                Some(error) => device_after_failure(error, device),
                None => device,
            }
        },
        _ => device,
    }
}

/// The call on the instrument that such a command leads to.
pub open spec fn command_call(
    envelope: CommandEnvelope,
    cancelled: bool,
    device: Option<DeviceStatus>,
) -> Option<DeviceCall> {
    match envelope.command {
        WorkerCommand::Connect { target } => Some(DeviceCall::Connect { target }),
        WorkerCommand::Disconnect | WorkerCommand::Shutdown | WorkerCommand::RunWorkspace(_)
        => None,
        WorkerCommand::StopSweep => if device is Some {
            Some(DeviceCall::StopSweep)
        } else {
            None
        },
        WorkerCommand::StartSource(params) => if !cancelled && operation_refusal(
            device,
            envelope.checks.device(0),
        ) is None {
            Some(DeviceCall::StartSource(params))
        } else {
            None
        },
        WorkerCommand::StopSource => if device is Some {
            Some(DeviceCall::StopSource)
        } else {
            None
        },
        WorkerCommand::StartCalibration(params) => if !cancelled && operation_refusal(
            device,
            envelope.checks.device(0),
        ) is None {
            Some(DeviceCall::StartCalibration(params))
        } else {
            None
        },
        WorkerCommand::AdvanceCalibration(prompt) => if device is Some {
            Some(DeviceCall::AdvanceCalibration(prompt))
        } else {
            None
        },
        WorkerCommand::CancelCalibration => if device is Some {
            Some(DeviceCall::CancelCalibration)
        } else {
            None
        },
        WorkerCommand::RefreshStatus => if device is Some && !device->0.source.possible() {
            Some(DeviceCall::Status)
        } else {
            None
        },
    }
}

/// What such a command makes of the job.
pub open spec fn command_job(
    envelope: CommandEnvelope,
    cancelled: bool,
    device: Option<DeviceStatus>,
    before: Option<SweepRequest>,
    writer_pending: bool,
    after: Option<SweepRequest>,
) -> bool {
    match envelope.command {
        WorkerCommand::RunWorkspace(plan) => if run_starts(
            plan,
            envelope.checks,
            cancelled,
            device,
        ) {
            &&& after is Some
            &&& after->0.is_new(envelope.request_id, envelope.cancel, plan)
            &&& after->0.wf()
            &&& after->0.phase == if writer_pending {
                RunPhase::Saving
            } else {
                RunPhase::Acquiring
            }
        } else {
            after is None
        },
        WorkerCommand::StartCalibration(_) => if cancelled {
            after == before
        } else {
            after is None
        },
        WorkerCommand::AdvanceCalibration(_) | WorkerCommand::CancelCalibration => if device
            is None {
            after is None
        } else {
            after == before
        },
        WorkerCommand::RefreshStatus => after == before,
        _ => after is None,
    }
}

/// Effects of a command: none when it comes too late, a refusal while a
/// calibration keeps it out, else those of the command itself.
pub open spec fn handled_effects(
    envelope: CommandEnvelope,
    cancelled: bool,
    before: WorkerState,
    writer_pending: bool,
) -> Seq<Effect> {
    if !admitted(envelope, before.identity) {
        seq![]
    } else if calibration_control::blocked(envelope.command, before.device) {
        calibration_control::rejection_effects(envelope.command, before.device, sender(envelope))
    } else {
        command_effects(envelope, cancelled, before.device, before.job, writer_pending)
    }
}

/// What a command makes of the worker, and the call that it leads to.
pub open spec fn handled(
    envelope: CommandEnvelope,
    cancelled: bool,
    before: WorkerState,
    writer_pending: bool,
    after: WorkerState,
    call: Option<DeviceCall>,
) -> bool {
    &&& after.identity == identity_after(envelope, before.identity)
    &&& if !admitted(envelope, before.identity) || calibration_control::blocked(envelope.command, before.device) {
        call is None && after.device == before.device && after.job == before.job
    } else {
        &&& call == command_call(envelope, cancelled, before.device)
        &&& after.device == command_device(envelope, cancelled, before.device)
        &&& command_job(
            envelope,
            cancelled,
            before.device,
            before.job,
            writer_pending,
            after.job,
        )
    }
}

/// Apply one command. `cancelled` tells whether its flag is up. The result is
/// the call on the instrument that has to follow.
pub fn handle_with_recording(
    envelope: CommandEnvelope,
    cancelled: bool,
    state: &mut WorkerState,
    writer_pending: bool,
    log: &mut Vec<Effect>,
) -> (call: Option<DeviceCall>)
    requires
        envelope.is_checked(),
    ensures
        handled(envelope, cancelled, *old(state), writer_pending, *final(state), call),
        final(log)@ == old(log)@ + handled_effects(envelope, cancelled, *old(state), writer_pending),
        old(state).wf() ==> final(state).wf(),
{
    let ghost whole = envelope;
    let session_id: u64 = envelope.session_id;
    let request_id: u64 = envelope.request_id;
    let cancel: Token = envelope.cancel;
    let lifecycle = match &envelope.command {
        WorkerCommand::Connect { .. } => true,
        WorkerCommand::Disconnect | WorkerCommand::Shutdown => true,
        _ => false,
    };
    let status_query = matches!(&envelope.command, WorkerCommand::RefreshStatus);
    if lifecycle {
        if session_id <= state.identity.session_id {
            return None;
        }
        state.identity = WorkerIdentity { session_id, request_id };
    } else {
        if session_id != state.identity.session_id || (!status_query && request_id
            < state.identity.request_id) {
            return None;
        }
        if !status_query {
            state.identity.request_id = request_id;
        }
    }
    let source = WorkerIdentity { session_id, request_id };
    if reject_while_active(&envelope.command, &state.device, source, log) {
        return None;
    }
    let ghost device = state.device;
    let ghost job = state.job;
    let call = match envelope.command {
        WorkerCommand::Connect { target } => {
            discard_job(&mut state.job, log);
            if state.device.is_some() {
                state.device = None;
                log.push(Effect::Drop);
            }
            Some(DeviceCall::Connect { target })
        },
        WorkerCommand::Disconnect | WorkerCommand::Shutdown => {
            discard_job(&mut state.job, log);
            close(&mut state.device, log);
            emit(source, WorkerEvent::Disconnected, log);
            None
        },
        WorkerCommand::RunWorkspace(plan) => {
            start_sweep(
                plan,
                &envelope.checks,
                request_id,
                cancel,
                cancelled,
                &mut state.device,
                &mut state.job,
                writer_pending,
                source,
                log,
            );
            None
        },
        WorkerCommand::StopSweep => {
            discard_job(&mut state.job, log);
            if state.device.is_some() {
                Some(DeviceCall::StopSweep)
            } else {
                emit(source, WorkerEvent::SweepStopped, log);
                None
            }
        },
        WorkerCommand::StartSource(params) => {
            discard_job(&mut state.job, log);
            if cancelled {
                None
            } else if state.device.is_none() {
                source_result(
                    Err(DeviceError::NotConnected),
                    &mut state.device,
                    &mut state.job,
                    source,
                    log,
                );
                None
            } else {
                match envelope.checks.device_verdict(0) {
                    Some(error) => {
                        source_result(
                            Err(error),
                            &mut state.device,
                            &mut state.job,
                            source,
                            log,
                        );
                        None
                    },
                    None => Some(DeviceCall::StartSource(params)),
                }
            }
        },
        WorkerCommand::StopSource => {
            discard_job(&mut state.job, log);
            if state.device.is_none() {
                source_result(
                    Err(DeviceError::NotConnected),
                    &mut state.device,
                    &mut state.job,
                    source,
                    log,
                );
                None
            } else {
                Some(DeviceCall::StopSource)
            }
        },
        WorkerCommand::StartCalibration(params) => {
            if cancelled {
                None
            } else if state.device.is_none() {
                calibration_result(
                    Err(DeviceError::NotConnected),
                    &mut state.device,
                    &mut state.job,
                    source,
                    log,
                );
                None
            } else {
                match envelope.checks.device_verdict(0) {
                    Some(error) => {
                        calibration_result(
                            Err(error),
                            &mut state.device,
                            &mut state.job,
                            source,
                            log,
                        );
                        None
                    },
                    None => {
                        discard_job(&mut state.job, log);
                        Some(DeviceCall::StartCalibration(params))
                    },
                }
            }
        },
        WorkerCommand::AdvanceCalibration(prompt) => {
            if state.device.is_none() {
                calibration_result(
                    Err(DeviceError::NotConnected),
                    &mut state.device,
                    &mut state.job,
                    source,
                    log,
                );
                None
            } else {
                Some(DeviceCall::AdvanceCalibration(prompt))
            }
        },
        WorkerCommand::CancelCalibration => {
            if state.device.is_none() {
                calibration_result(
                    Err(DeviceError::NotConnected),
                    &mut state.device,
                    &mut state.job,
                    source,
                    log,
                );
                None
            } else {
                Some(DeviceCall::CancelCalibration)
            }
        },
        WorkerCommand::RefreshStatus => {
            if refresh_status(&state.device, source, log) {
                Some(DeviceCall::Status)
            } else {
                None
            }
        },
    };
    assert(log@ =~= old(log)@ + command_effects(whole, cancelled, device, job, writer_pending));
    call
}

/// Apply one command while no recording is being written.
pub fn handle(
    envelope: CommandEnvelope,
    cancelled: bool,
    state: &mut WorkerState,
    log: &mut Vec<Effect>,
) -> (call: Option<DeviceCall>)
    requires
        envelope.is_checked(),
    ensures
        handled(envelope, cancelled, *old(state), false, *final(state), call),
        final(log)@ == old(log)@ + handled_effects(envelope, cancelled, *old(state), false),
        old(state).wf() ==> final(state).wf(),
{
    handle_with_recording(envelope, cancelled, state, false, log)
}

/// Keep a status query for the end of the current frame, apply anything else.
/// A kept query falls with its session.
pub fn handle_or_defer(
    envelope: CommandEnvelope,
    cancelled: bool,
    pending_status: &mut Option<CommandEnvelope>,
    state: &mut WorkerState,
    writer_pending: bool,
    log: &mut Vec<Effect>,
) -> (call: Option<DeviceCall>)
    requires
        envelope.is_checked(),
    ensures
        old(state).wf() ==> final(state).wf(),
        if envelope.command is RefreshStatus {
            &&& call is None
            &&& *final(state) == *old(state)
            &&& final(log)@ == old(log)@
            &&& *final(pending_status) == if envelope.session_id == old(state).identity.session_id {
                Some(envelope)
            } else {
                *old(pending_status)
            }
        } else {
            &&& handled(envelope, cancelled, *old(state), writer_pending, *final(state), call)
            &&& final(log)@ == old(log)@ + handled_effects(
                envelope,
                cancelled,
                *old(state),
                writer_pending,
            )
            &&& *final(pending_status) == match *old(pending_status) {
                Some(status) => if status.session_id == final(state).identity.session_id {
                    Some(status)
                } else {
                    None
                },
                None => None,
            }
        },
{
    let status_query = matches!(&envelope.command, WorkerCommand::RefreshStatus);
    if status_query {
        if envelope.session_id == state.identity.session_id {
            *pending_status = Some(envelope);
        }
        return None;
    }
    let call = handle_with_recording(envelope, cancelled, state, writer_pending, log);
    let expired = match pending_status {
        Some(status) => status.session_id != state.identity.session_id,
        None => false,
    };
    if expired {
        *pending_status = None;
    }
    call
}

/// Whom a source answers to after a command.
pub open spec fn source_owner(
    envelope: CommandEnvelope,
    cancelled: bool,
    identity: WorkerIdentity,
    owner: Option<RequestOwner>,
) -> Option<RequestOwner> {
    if envelope.command is StartSource && envelope.checks.device(0) is None && envelope.session_id
        == identity.session_id && envelope.request_id >= identity.request_id && !cancelled {
        Some(RequestOwner { identity: sender(envelope), cancel: envelope.cancel })
    } else {
        owner
    }
}

/// Remember whom a started source answers to.
pub fn track_source_request(
    envelope: &CommandEnvelope,
    cancelled: bool,
    identity: WorkerIdentity,
    owner: &mut Option<RequestOwner>,
)
    requires
        envelope.is_checked(),
    ensures
        *final(owner) == source_owner(*envelope, cancelled, identity, *old(owner)),
{
    let starts = matches!(&envelope.command, WorkerCommand::StartSource(_));
    if starts && envelope.checks.device_accepts(0) && envelope.session_id == identity.session_id
        && envelope.request_id >= identity.request_id && !cancelled {
        *owner = Some(
            RequestOwner {
                identity: WorkerIdentity {
                    session_id: envelope.session_id,
                    request_id: envelope.request_id,
                },
                cancel: envelope.cancel,
            },
        );
    }
}

/// Whether a running source outlives this command, which is then refused.
pub open spec fn source_outlives(envelope: CommandEnvelope) -> bool {
    match envelope.command {
        WorkerCommand::RefreshStatus => true,
        WorkerCommand::RunWorkspace(_) => true,
        WorkerCommand::StartCalibration(_) => true,
        WorkerCommand::AdvanceCalibration(_) => true,
        WorkerCommand::CancelCalibration => true,
        WorkerCommand::StartSource(_) => envelope.checks.device(0) is Some,
        _ => false,
    }
}

/// The flag of a running source's owner, for a command that it outlives.
pub open spec fn source_guard(
    envelope: CommandEnvelope,
    device: Option<DeviceStatus>,
    owner: Option<RequestOwner>,
) -> Option<Token> {
    if source_outlives(envelope) && device is Some && device->0.source.requested() && owner is Some {
        Some(owner->0.cancel)
    } else {
        None
    }
}

/// The flag that makes a refusal under a running source pointless to deliver.
pub fn source_rejection_guard(
    envelope: &CommandEnvelope,
    device: &Option<DeviceStatus>,
    owner: &Option<RequestOwner>,
) -> (guard: Option<Token>)
    requires
        envelope.is_checked(),
    ensures
        guard == source_guard(*envelope, *device, *owner),
{
    let rejects_without_stopping = match &envelope.command {
        WorkerCommand::RefreshStatus => true,
        WorkerCommand::RunWorkspace(_) => true,
        WorkerCommand::StartCalibration(_) => true,
        WorkerCommand::AdvanceCalibration(_) => true,
        WorkerCommand::CancelCalibration => true,
        WorkerCommand::StartSource(_) => !envelope.checks.device_accepts(0),
        _ => false,
    };
    if !rejects_without_stopping {
        return None;
    }
    match (device, owner) {
        (Some(status), Some(owner)) => {
            if status.source.is_requested() {
                Some(owner.cancel)
            } else {
                None
            }
        },
        _ => None,
    }
}

/// The flag that makes an event pointless to deliver. Progress becomes
/// obsolete with its own request. A terminal error stays deliverable after
/// its failed job was discarded.
pub fn obsolete_token(event: &WorkerEvent, cancel: Token, guard: Option<Token>) -> (token: Option<
    Token,
>)
    ensures
        token == match *event {
            WorkerEvent::RunProgress(_) | WorkerEvent::SourceReport(_) => Some(cancel),
            WorkerEvent::CalibrationReport(_)
            | WorkerEvent::Status(_)
            | WorkerEvent::StatusFailed(_) => Some(
                if guard is Some {
                    guard->0
                } else {
                    cancel
                },
            ),
            WorkerEvent::Error(_) => guard,
            _ => None,
        },
{
    match event {
        WorkerEvent::RunProgress(_) => Some(cancel),
        WorkerEvent::SourceReport(_) => Some(cancel),
        WorkerEvent::CalibrationReport(_) => guarded(cancel, guard),
        WorkerEvent::Status(_) => guarded(cancel, guard),
        WorkerEvent::StatusFailed(_) => guarded(cancel, guard),
        WorkerEvent::Error(_) => guard,
        _ => None,
    }
}

fn guarded(cancel: Token, guard: Option<Token>) -> (token: Option<Token>)
    ensures
        token == Some(
            if guard is Some {
                guard->0
            } else {
                cancel
            },
        ),
{
    match guard {
        Some(token) => Some(token),
        None => Some(cancel),
    }
}

/// Whether a preview may go out: at the start of a frame, at first, and then
/// at most once per interval.
pub fn preview_due(last: Option<u128>, reset: bool, now: u128) -> (due: bool)
    ensures
        due == (reset || last is None || now - last->0 >= PREVIEW_INTERVAL),
{
    if reset {
        return true;
    }
    match last {
        None => true,
        Some(last) => now >= last && now - last >= PREVIEW_INTERVAL,
    }
}

/// What a list measurement does next.
#[derive(Debug, Clone, Copy, PartialEq, Eq, Structural)]
pub enum ListStep {
    Cancelled,
    Measure { frequency_hz: u64 },
    Done,
}

/// A list of frequencies that is measured point by point.
#[derive(Debug)]
pub struct ListRun {
    pub frequencies_hz: Vec<u64>,
    pub next: usize,
    pub data: SweepData,
}

impl ListRun {
    pub open spec fn wf(self) -> bool {
        self.next <= self.frequencies_hz@.len()
    }

    /// Begin with no rows. The empty frame is worth a preview.
    pub fn new(settings: &PointSettings, frequencies_hz: Vec<u64>) -> (run: Self)
        ensures
            run.wf(),
            run.next == 0,
            run.frequencies_hz == frequencies_hz,
            run.data.mode == settings.spec_mode(),
            run.data.format@ == settings.spec_format(),
            run.data.points@.len() == 0,
    {
        ListRun {
            frequencies_hz,
            next: 0,
            data: SweepData {
                mode: settings.mode(),
                format: settings.format().to_owned(),
                points: Vec::new(),
            },
        }
    }

    /// The next point, unless the request's flag is up or all are measured.
    pub fn step(&self, cancelled: bool) -> (step: ListStep)
        requires
            self.wf(),
        ensures
            step == if cancelled {
                ListStep::Cancelled
            } else if self.next < self.frequencies_hz@.len() {
                ListStep::Measure { frequency_hz: self.frequencies_hz@[self.next as int] }
            } else {
                ListStep::Done
            },
    {
        if cancelled {
            ListStep::Cancelled
        } else if self.next < self.frequencies_hz.len() {
            ListStep::Measure { frequency_hz: self.frequencies_hz[self.next] }
        } else {
            ListStep::Done
        }
    }

    /// Take the rows of the point that was asked for. Each is worth a preview.
    pub fn accept(&mut self, rows: Vec<SweepPoint>)
        requires
            old(self).next < old(self).frequencies_hz@.len(),
        ensures
            final(self).wf(),
            final(self).next == old(self).next + 1,
            final(self).frequencies_hz == old(self).frequencies_hz,
            final(self).data.mode == old(self).data.mode,
            final(self).data.format == old(self).data.format,
            final(self).data.points@ == old(self).data.points@ + rows@,
    {
        let count: usize = self.frequencies_hz.len();
        assert(self.next < count);
        let mut rows = rows;
        self.data.points.append(&mut rows);
        self.next = self.next + 1;
    }

    /// Number of points that a preview announces.
    pub fn expected_points(&self) -> (points: u32)
        ensures
            points == self.frequencies_hz@.len() as u32,
    {
        self.frequencies_hz.len() as u32
    }
}

/// Whether an event is still worth sending.
pub fn may_send(shutdown: bool, obsolete: bool) -> (send: bool)
    ensures
        send == (!shutdown && !obsolete),
{
    !shutdown && !obsolete
}

/// How an attempt to queue an event ended.
#[derive(Debug, Clone, Copy, PartialEq, Eq, Structural)]
pub enum SendOutcome {
    Queued,
    Full,
    Disconnected,
}

/// What follows an attempt to queue an event.
#[derive(Debug, Clone, Copy, PartialEq, Eq, Structural)]
pub enum SendStep {
    Done,
    /// Wait for room, then ask `may_send` again.
    Retry,
    /// Nobody listens any more: raise the shutdown flag.
    ShutDown,
}

/// Results are never dropped for want of room, and a missing listener ends
/// the worker.
pub fn after_send(outcome: SendOutcome) -> (step: SendStep)
    ensures
        step == match outcome {
            SendOutcome::Queued => SendStep::Done,
            SendOutcome::Full => SendStep::Retry,
            SendOutcome::Disconnected => SendStep::ShutDown,
        },
{
    match outcome {
        SendOutcome::Queued => SendStep::Done,
        SendOutcome::Full => SendStep::Retry,
        SendOutcome::Disconnected => SendStep::ShutDown,
    }
}

/// What the pause between two status queries does next.
#[derive(Debug, Clone, Copy, PartialEq, Eq, Structural)]
pub enum GapStep {
    Cancelled,
    Done,
    Sleep { nanos: u128 },
}

/// Pause in short naps, so that cancellation is noticed.
pub fn status_command_gap(cancelled: bool, elapsed: u128) -> (step: GapStep)
    ensures
        step == if cancelled {
            GapStep::Cancelled
        } else if elapsed > STATUS_COMMAND_GAP {
            GapStep::Done
        } else if STATUS_COMMAND_GAP - elapsed < 10_000_000 {
            GapStep::Sleep { nanos: (STATUS_COMMAND_GAP - elapsed) as u128 }
        } else {
            GapStep::Sleep { nanos: 10_000_000 }
        },
{
    if cancelled {
        return GapStep::Cancelled;
    }
    if elapsed > STATUS_COMMAND_GAP {
        return GapStep::Done;
    }
    let remaining: u128 = STATUS_COMMAND_GAP - elapsed;
    if remaining < 10_000_000 {
        GapStep::Sleep { nanos: remaining }
    } else {
        GapStep::Sleep { nanos: 10_000_000 }
    }
}

/// A command never takes the worker back to an older session, nor to an older
/// request of the same session.
pub proof fn law_identity_never_goes_back(envelope: CommandEnvelope, identity: WorkerIdentity)
    ensures
        identity_after(envelope, identity).session_id >= identity.session_id,
        identity_after(envelope, identity).session_id == identity.session_id ==> identity_after(
            envelope,
            identity,
        ).request_id >= identity.request_id,
{
}

/// A command of another session, or one older than the latest request, has no
/// effect at all.
pub proof fn law_stale_commands_change_nothing(
    envelope: CommandEnvelope,
    cancelled: bool,
    before: WorkerState,
    writer_pending: bool,
    after: WorkerState,
    call: Option<DeviceCall>,
)
    requires
        handled(envelope, cancelled, before, writer_pending, after, call),
        if is_lifecycle(envelope.command) {
            envelope.session_id <= before.identity.session_id
        } else {
            envelope.session_id != before.identity.session_id || (!(
            envelope.command is RefreshStatus) && envelope.request_id
                < before.identity.request_id)
        },
    ensures
        after == before,
        call is None,
        handled_effects(envelope, cancelled, before, writer_pending).len() == 0,
{
}

/// What a running calibration refuses leaves the instrument and the job alone.
pub proof fn law_refused_commands_disturb_nothing(
    envelope: CommandEnvelope,
    cancelled: bool,
    before: WorkerState,
    writer_pending: bool,
    after: WorkerState,
    call: Option<DeviceCall>,
)
    requires
        handled(envelope, cancelled, before, writer_pending, after, call),
        calibration_control::blocked(envelope.command, before.device),
    ensures
        after.device == before.device,
        after.job == before.job,
        call is None,
        forall|i: int|
            0 <= i < handled_effects(envelope, cancelled, before, writer_pending).len()
                ==> #[trigger] handled_effects(
                envelope,
                cancelled,
                before,
                writer_pending,
            )[i] is Emit,
{
}

/// A status query belongs to the session: it keeps the latest request and the
/// job, however old its own request number is.
pub proof fn law_status_queries_keep_the_run(
    envelope: CommandEnvelope,
    cancelled: bool,
    before: WorkerState,
    writer_pending: bool,
    after: WorkerState,
    call: Option<DeviceCall>,
)
    requires
        handled(envelope, cancelled, before, writer_pending, after, call),
        envelope.command is RefreshStatus,
    ensures
        after == before,
        call is Some ==> call->0 is Status && before.device is Some
            && !before.device->0.source.possible(),
{
}

/// A new job exists only under a valid plan, with an instrument that is there
/// and whose source is off.
pub proof fn law_jobs_need_an_idle_instrument(
    envelope: CommandEnvelope,
    cancelled: bool,
    before: WorkerState,
    writer_pending: bool,
    after: WorkerState,
    call: Option<DeviceCall>,
)
    requires
        handled(envelope, cancelled, before, writer_pending, after, call),
        after.job is Some,
        after.job != before.job,
    ensures
        envelope.command is RunWorkspace,
        !cancelled,
        before.device is Some,
        !before.device->0.source.possible(),
        !before.device->0.calibration.active(),
        acquisition::plan_fault(
            (envelope.command->RunWorkspace_0).models(),
            envelope.checks,
        ) is None,
        after.device == before.device,
{
}

/// A job that a command ends or replaces has its flag raised.
pub proof fn law_ended_jobs_are_cancelled(
    envelope: CommandEnvelope,
    cancelled: bool,
    before: WorkerState,
    writer_pending: bool,
    after: WorkerState,
    call: Option<DeviceCall>,
)
    requires
        handled(envelope, cancelled, before, writer_pending, after, call),
        before.job is Some,
        after.job != before.job,
    ensures
        handled_effects(envelope, cancelled, before, writer_pending).contains(
            Effect::Cancel(before.job->0.cancel),
        ),
{
    let effects = handled_effects(envelope, cancelled, before, writer_pending);
    let flag = Effect::Cancel(before.job->0.cancel);
    assert(discarded(before.job)[0] == flag);
    match envelope.command {
        WorkerCommand::StartCalibration(_) => {
            let refusal = operation_refusal(before.device, envelope.checks.device(0));
            if refusal is Some {
                lemma_calibration_failure_cancels(
                    refusal->0,
                    before.device,
                    before.job,
                    sender(envelope),
                );
            } else {
                assert(effects[0] == flag);
            }
        },
        WorkerCommand::AdvanceCalibration(_) | WorkerCommand::CancelCalibration => {
            lemma_calibration_failure_cancels(
                DeviceError::NotConnected,
                before.device,
                before.job,
                sender(envelope),
            );
        },
        _ => {
            assert(effects[0] == flag);
        },
    }
}

proof fn lemma_calibration_failure_cancels(
    error: DeviceError,
    device: Option<DeviceStatus>,
    job: Option<SweepRequest>,
    source: WorkerIdentity,
)
    requires
        job is Some,
    ensures
        calibration_effects(Err(error), device, job, source).contains(
            Effect::Cancel(job->0.cancel),
        ),
{
    let effects = calibration_effects(Err(error), device, job, source);
    let flag = Effect::Cancel(job->0.cancel);
    if device is Some && device->0.requires_reconnect {
        assert(effects[2] == flag);
    } else {
        assert(failure_effects(error, Context::Calibration, device, job, source)[0] == flag);
        assert(effects[1] == flag);
    }
}

/// An instrument that a failed calibration step retired is released before
/// anything is reported, and the last report is that the connection is lost.
pub proof fn law_retired_instruments_are_released_first(
    error: DeviceError,
    status: DeviceStatus,
    job: Option<SweepRequest>,
    source: WorkerIdentity,
)
    requires
        status.requires_reconnect,
    ensures
        calibration_effects(Err(error), Some(status), job, source)[0] is Close,
        calibration_effects(Err(error), Some(status), job, source).last() == Effect::Emit(
            source.envelope(
                WorkerEvent::ConnectionLost(
                    Message::Failure { context: Context::Calibration, error },
                ),
            ),
        ),
        device_after_failure(error, Some(status)) is None,
{
}

/// A device error that leaves the link alone keeps the session: the user is
/// told, and the instrument stays.
pub proof fn law_device_errors_keep_the_session(
    error: DeviceError,
    context: Context,
    status: DeviceStatus,
    job: Option<SweepRequest>,
    source: WorkerIdentity,
)
    requires
        !status.requires_reconnect,
        error is Device || error is InvalidParameter || error is DeviceBusy || error is SourceActive,
    ensures
        device_after_failure(error, Some(status)) == Some(status),
        failure_effects(error, context, Some(status), job, source) == discarded(job) + emitted(
            source,
            WorkerEvent::Error(Message::Failure { context, error }),
        ),
{
}

/// After a pass the next one waits for the interval that was set: the moment
/// until which it waits lies the interval's milliseconds after the clock, and
/// without an interval the next pass follows at once. The pass is counted. It
/// cannot be closed where its number or the clock runs out.
pub proof fn law_passes_wait_for_the_interval(
    job: &mut SweepRequest,
    clock: Clock,
    result: Result<RunProgress, PassError>,
)
    requires
        call_ensures(SweepRequest::finish_pass, (job, clock), result),
    ensures
        ({
            let interval = old(job).plan.run.interval_ms;
            let due = clock.now + interval * 1_000_000;
            &&& old(job).pass_id == u64::MAX ==> result == Err::<RunProgress, PassError>(
                PassError::PassIdExhausted,
            )
            &&& old(job).pass_id < u64::MAX && interval == 0 ==> result == Ok::<
                RunProgress,
                PassError,
            >(RunProgress::Acquiring) && final(job).phase is Acquiring
            &&& old(job).pass_id < u64::MAX && interval > 0 && due > clock.latest ==> result == Err::<
                RunProgress,
                PassError,
            >(PassError::ClockRange)
            &&& old(job).pass_id < u64::MAX && interval > 0 && due <= clock.latest ==> {
                &&& result matches Ok(RunProgress::Waiting { until }) && until - clock.now
                    == interval * 1_000_000
                &&& final(job).phase matches RunPhase::Waiting { until } && until - clock.now
                    == interval * 1_000_000
            }
            &&& result is Ok ==> final(job).pass_id == old(job).pass_id + 1
            &&& result is Err ==> final(job).phase == old(job).phase
            &&& final(job).plan == old(job).plan
            &&& final(job).next_group == old(job).next_group
            &&& final(job).request_id == old(job).request_id
        }),
{
}

/// A longer interval never lets the next pass start sooner, and the wait grows
/// by a million nanoseconds for each millisecond.
pub proof fn law_longer_intervals_wait_longer(
    a: &mut SweepRequest,
    b: &mut SweepRequest,
    clock: Clock,
    first: u128,
    second: u128,
)
    requires
        call_ensures(
            SweepRequest::finish_pass,
            (a, clock),
            Ok::<RunProgress, PassError>(RunProgress::Waiting { until: first }),
        ),
        call_ensures(
            SweepRequest::finish_pass,
            (b, clock),
            Ok::<RunProgress, PassError>(RunProgress::Waiting { until: second }),
        ),
    ensures
        second - first == (old(b).plan.run.interval_ms - old(a).plan.run.interval_ms) * 1_000_000,
{
}

/// A pass that is not recorded is closed as such. One that is recorded is handed
/// to the recorder first, whole and under its own number, and only one at a
/// time.
pub proof fn law_recorded_passes_are_handed_over(
    state: &mut RecordingState,
    session_id: u64,
    job: &mut SweepRequest,
    clock: Clock,
    step: PassStep,
)
    requires
        call_ensures(RecordingState::finish_pass, (state, session_id, job, clock), step),
    ensures
        ({
            let run = old(job).plan.run;
            &&& !run.recording.enabled ==> !(step is Save) && (step matches PassStep::Done(
                progress,
            ) ==> if run.interval_ms == 0 {
                progress is Acquiring
            } else {
                progress matches RunProgress::Waiting { until } && until - clock.now
                    == run.interval_ms * 1_000_000
            })
            &&& !run.recording.enabled && old(job).pass_id < u64::MAX && (run.interval_ms == 0
                || clock.now + run.interval_ms * 1_000_000 <= clock.latest) ==> step is Done
            &&& run.recording.enabled && old(state).pending is Some ==> step == PassStep::Refused(
                PassError::StillPending,
            )
            &&& run.recording.enabled && old(state).pending is None ==> (step matches PassStep::Save {
                key,
                snapshots,
            } && key.session_id == session_id && key.request_id == old(job).request_id
                && key.pass_id == old(job).pass_id && snapshots@ == old(job).pass@)
            &&& final(state).pending == old(state).pending
        }),
{
}

/// What the recorder accepted is pending, and the run waits for it. What it
/// refused is not.
pub proof fn law_submitted_passes_are_pending(
    state: &mut RecordingState,
    key: RecordKey,
    accepted: Result<(), String>,
    job: &mut SweepRequest,
    result: Result<RunProgress, PassError>,
)
    requires
        call_ensures(RecordingState::save_submitted, (state, key, accepted, job), result),
    ensures
        accepted is Ok ==> result == Ok::<RunProgress, PassError>(RunProgress::Saving) && final(state).pending == Some(key) && final(job).phase is Saving,
        accepted is Err ==> result is Err && final(state).pending == old(state).pending && *final(job) == *old(job),
        final(job).pass_id == old(job).pass_id,
        final(job).plan == old(job).plan,
{
}

/// The recorder's answer frees it. It concerns the run only where session,
/// request and pass are those of the job that waits for it, and then a file lets
/// the run go on after its interval, while no file ends it.
pub proof fn law_recorder_answers_concern_their_pass(
    state: &mut RecordingState,
    answer: RecordResult,
    identity: WorkerIdentity,
    job: &mut Option<SweepRequest>,
    cancelled: bool,
    clock: Clock,
    log: &mut Vec<Effect>,
)
    requires
        call_ensures(
            RecordingState::accept_result,
            (state, answer, identity, job, cancelled, clock, log),
            (),
        ),
    ensures
        ({
            let waiting = (*old(job))->0;
            let own = *old(job) is Some && !cancelled && answer.key.session_id
                == identity.session_id && answer.key.request_id == waiting.request_id
                && answer.key.pass_id == waiting.pass_id && waiting.phase is Saving;
            &&& old(state).pending != Some(answer.key) ==> final(state).pending == old(state).pending && *final(job) == *old(job) && final(log)@ == old(log)@
            &&& old(state).pending == Some(answer.key) ==> final(state).pending is None
            &&& old(state).pending == Some(answer.key) && !own ==> *final(job) == *old(job)
                && final(log)@ == old(log)@
            &&& old(state).pending == Some(answer.key) && own && !(answer.result matches Ok(
                Some(_),
            )) ==> *final(job) is None && final(log)@.len() > old(log)@.len()
                && final(log)@[old(log)@.len() as int] == Effect::Cancel(waiting.cancel)
            &&& old(state).pending == Some(answer.key) && own && (answer.result matches Ok(Some(_)))
                && waiting.pass_id < u64::MAX && (waiting.plan.run.interval_ms == 0 || clock.now
                + waiting.plan.run.interval_ms * 1_000_000 <= clock.latest) ==> {
                &&& *final(job) is Some
                &&& (*final(job))->0.pass_id == waiting.pass_id + 1
                &&& (*final(job))->0.plan == waiting.plan
                &&& (*final(job))->0.next_group == waiting.next_group
                &&& waiting.plan.run.interval_ms == 0 ==> (*final(job))->0.phase is Acquiring
                &&& waiting.plan.run.interval_ms > 0 ==> (
                (*final(job))->0.phase matches RunPhase::Waiting { until } && until - clock.now
                    == waiting.plan.run.interval_ms * 1_000_000)
            }
        }),
{
}

/// A pause ends when its moment has come, or when the recorder is done, and
/// never while the recorder writes.
pub proof fn law_pauses_end_in_time(
    job: &mut SweepRequest,
    writer_pending: bool,
    now: u128,
    progress: Option<RunProgress>,
)
    requires
        call_ensures(advance_wait, (job, writer_pending, now), progress),
    ensures
        writer_pending ==> progress is None,
        old(job).phase matches RunPhase::Waiting { until } && now < until ==> progress is None,
        old(job).phase matches RunPhase::Waiting { until } && now >= until && !writer_pending
            ==> progress is Some,
        old(job).phase is Saving && !writer_pending ==> progress is Some,
        old(job).phase is Acquiring ==> progress is None,
        progress is Some ==> final(job).phase is Acquiring,
        progress is None ==> *final(job) == *old(job),
        final(job).plan == old(job).plan && final(job).next_group == old(job).next_group,
{
}

/// Which failures mean that the link is gone: those of the link itself. A
/// cancelled operation, a refusal of the instrument or of its parameters, an
/// active source and a busy instrument leave it alone.
pub proof fn law_links_fail_by_themselves(error: &DeviceError, failed: bool)
    requires
        call_ensures(connection_failed, (error,), failed),
    ensures
        failed <==> *error is Io || *error is NotConnected || *error is Timeout
            || *error is Protocol,
        *error is Cancelled || *error is Device || *error is InvalidParameter
            || *error is SourceActive || *error is DeviceBusy ==> !failed,
{
}

/// A failure ends the job, whose flag is raised first. Where the link is gone or
/// the instrument has to be opened anew, the instrument is released and the loss
/// is told. Otherwise it stays, and the failure is told unless the user asked
/// for it.
pub proof fn law_failures_end_the_job(
    error: DeviceError,
    context: Context,
    device: &mut Option<DeviceStatus>,
    job: &mut Option<SweepRequest>,
    source: WorkerIdentity,
    log: &mut Vec<Effect>,
)
    requires
        call_ensures(fail, (error, context, device, job, source, log), ()),
    ensures
        ({
            let lost = error is Io || error is NotConnected || error is Timeout || error is Protocol
                || *old(device) is Some && (*old(device))->0.requires_reconnect;
            let before = old(log)@.len() as int;
            let after = final(log)@;
            let told = if *old(job) is Some {
                before + 1
            } else {
                before
            };
            &&& *final(job) is None
            &&& *old(job) is Some ==> after[before] == Effect::Cancel((*old(job))->0.cancel)
            &&& lost ==> *final(device) is None && after.last() == Effect::Emit(
                EventEnvelope {
                    session_id: source.session_id,
                    request_id: source.request_id,
                    cycle_id: None,
                    event: WorkerEvent::ConnectionLost(Message::Failure { context, error }),
                },
            )
            &&& lost && *old(device) is Some ==> after[told] is Close && after.len() == told + 2
            &&& lost && *old(device) is None ==> after.len() == told + 1
            &&& !lost ==> *final(device) == *old(device)
            &&& !lost && error is Cancelled ==> after.len() == told
            &&& !lost && !(error is Cancelled) ==> after.len() == told + 1 && after[told]
                == Effect::Emit(
                EventEnvelope {
                    session_id: source.session_id,
                    request_id: source.request_id,
                    cycle_id: None,
                    event: WorkerEvent::Error(Message::Failure { context, error }),
                },
            )
        }),
{
}

/// A call on the instrument carries out the command that led to it, with the
/// values of that command. None is made without an instrument but the one that
/// opens it, nor for a command whose parameters the driver refuses or that was
/// cancelled before it began.
pub proof fn law_calls_carry_out_their_command(
    envelope: CommandEnvelope,
    cancelled: bool,
    state: &mut WorkerState,
    writer_pending: bool,
    log: &mut Vec<Effect>,
    call: Option<DeviceCall>,
)
    requires
        envelope.is_checked(),
        call_ensures(
            handle_with_recording,
            (envelope, cancelled, state, writer_pending, log),
            call,
        ),
    ensures
        call matches Some(DeviceCall::Connect { target }) ==> envelope.command == (
        WorkerCommand::Connect { target }) && envelope.session_id > old(state).identity.session_id,
        call matches Some(DeviceCall::StartSource(params)) ==> envelope.command
            == WorkerCommand::StartSource(params) && !cancelled && old(state).device is Some
            && envelope.checks.devices@[0] is None,
        call matches Some(DeviceCall::StartCalibration(params)) ==> envelope.command
            == WorkerCommand::StartCalibration(params) && !cancelled && old(state).device is Some
            && envelope.checks.devices@[0] is None && !old(state).device->0.calibration.active(),
        call matches Some(DeviceCall::AdvanceCalibration(prompt)) ==> envelope.command
            == WorkerCommand::AdvanceCalibration(prompt) && old(state).device is Some,
        call is Some && call->0 is CancelCalibration ==> envelope.command is CancelCalibration
            && old(state).device is Some,
        call is Some && call->0 is StopSource ==> envelope.command is StopSource && old(state).device is Some,
        call is Some && call->0 is StopSweep ==> envelope.command is StopSweep && old(state).device is Some,
        call is Some && call->0 is Status ==> envelope.command is RefreshStatus && old(state).device is Some && !old(state).device->0.source.possible(),
        call is Some && !(call->0 is Connect) ==> envelope.session_id == old(state).identity.session_id,
        final(log)@.len() >= old(log)@.len(),
        final(log)@.take(old(log)@.len() as int) == old(log)@,
{
    assert(final(log)@.take(old(log)@.len() as int) =~= old(log)@);
}

/// A command of the present is carried out. One that opens or ends a session is
/// of the present where its session is newer, any other where it is of the
/// session and not older than the last request.
pub proof fn law_present_commands_are_carried_out(
    envelope: CommandEnvelope,
    cancelled: bool,
    state: &mut WorkerState,
    writer_pending: bool,
    log: &mut Vec<Effect>,
    call: Option<DeviceCall>,
)
    requires
        envelope.is_checked(),
        call_ensures(
            handle_with_recording,
            (envelope, cancelled, state, writer_pending, log),
            call,
        ),
    ensures
        ({
            let newer = envelope.session_id > old(state).identity.session_id;
            let current = envelope.session_id == old(state).identity.session_id
                && envelope.request_id >= old(state).identity.request_id;
            let device = old(state).device;
            let calm = device is Some && !device->0.calibration.active();
            &&& envelope.command is Connect && newer ==> call == Some(
                DeviceCall::Connect { target: envelope.command->target },
            ) && final(state).device is None && final(state).job is None && final(state).identity.session_id == envelope.session_id && final(state).identity.request_id
                == envelope.request_id
            &&& (envelope.command is Disconnect || envelope.command is Shutdown) && newer
                ==> call is None && final(state).device is None && final(state).job is None
            &&& envelope.command is StopSweep && current && calm ==> call == Some(
                DeviceCall::StopSweep,
            ) && final(state).job is None && final(state).device == device
            &&& envelope.command is StartSource && current && calm && !cancelled
                && envelope.checks.devices@[0] is None ==> call == Some(
                DeviceCall::StartSource(envelope.command->StartSource_0),
            ) && final(state).job is None
            &&& envelope.command is StopSource && current && calm ==> call == Some(
                DeviceCall::StopSource,
            ) && final(state).job is None
            &&& envelope.command is StartCalibration && current && calm && !cancelled
                && envelope.checks.devices@[0] is None ==> call == Some(
                DeviceCall::StartCalibration(envelope.command->StartCalibration_0),
            ) && final(state).job is None
            &&& envelope.command is AdvanceCalibration && current && device is Some ==> call
                == Some(
                DeviceCall::AdvanceCalibration(envelope.command->AdvanceCalibration_0),
            ) && final(state).job == old(state).job
            &&& envelope.command is CancelCalibration && current && device is Some ==> call
                == Some(DeviceCall::CancelCalibration)
            &&& envelope.command is RefreshStatus && envelope.session_id == old(state).identity.session_id && calm && !device->0.source.possible() ==> call == Some(
                DeviceCall::Status,
            ) && *final(state) == *old(state)
            &&& envelope.command is RunWorkspace && current && calm && !cancelled
                && !device->0.source.possible() && acquisition::plan_fault(
                envelope.command->RunWorkspace_0.models(),
                envelope.checks,
            ) is None ==> final(state).job is Some && final(state).job->0.plan
                == envelope.command->RunWorkspace_0 && final(state).job->0.request_id
                == envelope.request_id && final(state).job->0.cancel == envelope.cancel && final(state).job->0.next_group == 0 && final(state).job->0.pass_id == 1 && (final(state).job->0.phase is Saving <==> writer_pending)
            &&& current && !(envelope.command is Connect) && !(envelope.command is Disconnect)
                && !(envelope.command is Shutdown) && !(envelope.command is RefreshStatus) ==> final(state).identity.request_id == envelope.request_id
        }),
{
}

/// While a calibration runs, only its own commands and the end of the session
/// get through. The others change nothing and are answered with the calibration
/// as it stands.
pub proof fn law_calibrations_are_not_disturbed(
    envelope: CommandEnvelope,
    cancelled: bool,
    state: &mut WorkerState,
    writer_pending: bool,
    log: &mut Vec<Effect>,
    call: Option<DeviceCall>,
)
    requires
        envelope.is_checked(),
        call_ensures(
            handle_with_recording,
            (envelope, cancelled, state, writer_pending, log),
            call,
        ),
        old(state).device is Some,
        old(state).device->0.calibration.active(),
        envelope.session_id == old(state).identity.session_id,
        envelope.request_id >= old(state).identity.request_id,
        envelope.command is RunWorkspace || envelope.command is StopSweep
            || envelope.command is StartSource || envelope.command is StopSource
            || envelope.command is StartCalibration || envelope.command is RefreshStatus,
    ensures
        call is None,
        final(state).device == old(state).device,
        final(state).job == old(state).job,
        envelope.command is RefreshStatus ==> final(log)@.len() == old(log)@.len() + 1 && final(log)@.last() == Effect::Emit(
            EventEnvelope {
                session_id: envelope.session_id,
                request_id: envelope.request_id,
                cycle_id: None,
                event: WorkerEvent::StatusFailed(Message::CalibrationActive),
            },
        ),
        !(envelope.command is RefreshStatus) ==> final(log)@.len() == old(log)@.len() + 2 && final(log)@.last() == Effect::Emit(
            EventEnvelope {
                session_id: envelope.session_id,
                request_id: envelope.request_id,
                cycle_id: None,
                event: WorkerEvent::Error(Message::CalibrationActive),
            },
        ),
{
}

/// Ending a session raises the job's flag, releases the instrument and says so,
/// in this order. Opening another one lets the old instrument go.
pub proof fn law_sessions_end_in_order(
    envelope: CommandEnvelope,
    cancelled: bool,
    state: &mut WorkerState,
    writer_pending: bool,
    log: &mut Vec<Effect>,
    call: Option<DeviceCall>,
)
    requires
        call_ensures(
            handle_with_recording,
            (envelope, cancelled, state, writer_pending, log),
            call,
        ),
        envelope.command is Disconnect || envelope.command is Shutdown
            || envelope.command is Connect,
        envelope.session_id > old(state).identity.session_id,
    ensures
        ({
            let before = old(log)@.len() as int;
            let after = final(log)@;
            let jobless = if old(state).job is Some {
                before + 1
            } else {
                before
            };
            let free = if old(state).device is Some {
                jobless + 1
            } else {
                jobless
            };
            &&& old(state).job is Some ==> after[before] == Effect::Cancel(
                old(state).job->0.cancel,
            )
            &&& envelope.command is Connect ==> after.len() == free && (old(state).device is Some
                ==> after[jobless] is Drop)
            &&& !(envelope.command is Connect) ==> after.len() == free + 1 && (old(state).device is Some ==> after[jobless] is Close) && after[free] == Effect::Emit(
                EventEnvelope {
                    session_id: envelope.session_id,
                    request_id: envelope.request_id,
                    cycle_id: None,
                    event: WorkerEvent::Disconnected,
                },
            )
        }),
{
}

/// How an attempt to connect is told: the instrument's identity, or why it
/// failed, and nothing where the user gave it up.
pub proof fn law_connections_are_told(
    result: Result<(DeviceInfo, DeviceStatus), DeviceError>,
    device: &mut Option<DeviceStatus>,
    source: WorkerIdentity,
    log: &mut Vec<Effect>,
)
    requires
        call_ensures(connect_result, (result, device, source, log), ()),
    ensures
        result matches Ok((info, status)) ==> *final(device) == Some(status) && final(log)@ == old(log)@.push(Effect::Emit(source.envelope(WorkerEvent::Connected(info)))),
        result is Err ==> *final(device) is None,
        result matches Err(error) ==> if error is Cancelled {
            final(log)@ == old(log)@
        } else {
            final(log)@ == old(log)@.push(
                Effect::Emit(
                    source.envelope(
                        WorkerEvent::Error(Message::Failure { context: Context::Connect, error }),
                    ),
                ),
            )
        },
{
    assert(result matches Ok((info, status)) ==> old(log)@ + emitted(
        source,
        WorkerEvent::Connected(info),
    ) =~= old(log)@.push(Effect::Emit(source.envelope(WorkerEvent::Connected(info)))));
    assert(result matches Err(error) ==> old(log)@ + emitted(
        source,
        WorkerEvent::Error(Message::Failure { context: Context::Connect, error }),
    ) =~= old(log)@.push(
        Effect::Emit(
            source.envelope(
                WorkerEvent::Error(Message::Failure { context: Context::Connect, error }),
            ),
        ),
    ));
}

/// Events are addressed to the session and the request that they belong to.
pub proof fn law_events_are_addressed(
    identity: WorkerIdentity,
    event: WorkerEvent,
    envelope: EventEnvelope,
)
    requires
        call_ensures(WorkerIdentity::event, (identity, event), envelope),
    ensures
        envelope.session_id == identity.session_id,
        envelope.request_id == identity.request_id,
        envelope.cycle_id is None,
        envelope.event == event,
{
}

/// Which flag makes an event pointless: progress and the source's reports fall
/// with their own request, what a running operation refuses falls with that
/// operation, and results, losses and the end of a session are always told.
pub proof fn law_results_are_never_obsolete(
    event: &WorkerEvent,
    cancel: Token,
    guard: Option<Token>,
    token: Option<Token>,
)
    requires
        call_ensures(obsolete_token, (event, cancel, guard), token),
    ensures
        *event is SweepTrace || *event is Connected || *event is Disconnected
            || *event is ConnectionLost || *event is SweepStopped ==> token is None,
        *event is RunProgress || *event is SourceReport ==> token == Some(cancel),
        *event is Error ==> token == guard,
        *event is CalibrationReport || *event is Status || *event is StatusFailed ==> token is Some
            && (guard is Some ==> token == guard) && (guard is None ==> token == Some(cancel)),
{
}

/// Previews go out at most twenty times a second, but for the beginning of a
/// frame.
pub proof fn law_previews_are_spaced(last: Option<u128>, reset: bool, now: u128, due: bool)
    requires
        call_ensures(preview_due, (last, reset, now), due),
    ensures
        reset ==> due,
        last is None ==> due,
        due && !reset && last is Some ==> now - last->0 >= 50_000_000,
        last is Some && now - last->0 >= 50_000_000 ==> due,
{
}

/// A list is measured in its own order, each frequency once, until it is done or
/// the request is cancelled. Rows are kept in that order.
pub proof fn law_lists_are_measured_in_order(
    run: &ListRun,
    cancelled: bool,
    step: ListStep,
    other: &mut ListRun,
    rows: Vec<SweepPoint>,
)
    requires
        run.wf(),
        call_ensures(ListRun::step, (run, cancelled), step),
        old(other).next < old(other).frequencies_hz@.len(),
        call_ensures(ListRun::accept, (other, rows), ()),
    ensures
        cancelled <==> step is Cancelled,
        step matches ListStep::Measure { frequency_hz } ==> run.next < run.frequencies_hz@.len()
            && frequency_hz == run.frequencies_hz@[run.next as int],
        step is Done <==> !cancelled && run.next == run.frequencies_hz@.len(),
        final(other).next == old(other).next + 1,
        final(other).frequencies_hz@ == old(other).frequencies_hz@,
        final(other).data.points@.len() == old(other).data.points@.len() + rows@.len(),
        final(other).data.points@.take(old(other).data.points@.len() as int) == old(other).data.points@,
        final(other).data.points@.skip(old(other).data.points@.len() as int) == rows@,
{
    assert(final(other).data.points@.take(old(other).data.points@.len() as int) =~= old(other).data.points@);
    assert(final(other).data.points@.skip(old(other).data.points@.len() as int) =~= rows@);
}

/// The pause between the two queries of a status lasts a tenth of a second, in
/// naps of a hundredth at most, and ends at once where it is cancelled.
pub proof fn law_status_pauses_are_short(cancelled: bool, elapsed: u128, step: GapStep)
    requires
        call_ensures(status_command_gap, (cancelled, elapsed), step),
    ensures
        cancelled <==> step is Cancelled,
        step is Done <==> !cancelled && elapsed > 100_000_000,
        step matches GapStep::Sleep { nanos } ==> nanos <= 10_000_000 && elapsed + nanos
            <= 100_000_000 && (nanos == 10_000_000 || elapsed + nanos == 100_000_000),
{
}

/// An event waits for room in the queue, and nobody to hear it ends the worker.
pub proof fn law_events_wait_for_room(outcome: SendOutcome, step: SendStep, shutdown: bool, obsolete: bool, send: bool)
    requires
        call_ensures(after_send, (outcome,), step),
        call_ensures(may_send, (shutdown, obsolete), send),
    ensures
        step is Done <==> outcome is Queued,
        step is Retry <==> outcome is Full,
        step is ShutDown <==> outcome is Disconnected,
        send <==> !shutdown && !obsolete,
{
}

/// Whether an effect tells a request of a session this event, outside any cycle.
pub open spec fn tells(effect: Effect, source: WorkerIdentity, event: WorkerEvent) -> bool {
    &&& effect is Emit
    &&& effect->Emit_0.session_id == source.session_id
    &&& effect->Emit_0.request_id == source.request_id
    &&& effect->Emit_0.cycle_id is None
    &&& effect->Emit_0.event == event
}

/// A run starts where the instrument takes every group, is connected and has no
/// output on. It then takes the place of an earlier run, which is cancelled in
/// any case, and begins with the first group of its first pass. While the
/// recorder is still busy with an earlier run it waits.
pub proof fn law_runs_start_on_a_quiet_instrument(
    plan: SweepPlan,
    checks: &Checks,
    request_id: u64,
    cancel: Token,
    cancelled: bool,
    device: &mut Option<DeviceStatus>,
    job: &mut Option<SweepRequest>,
    writer_pending: bool,
    source: WorkerIdentity,
    log: &mut Vec<Effect>,
)
    requires
        checks.devices@.len() == plan.groups@.len(),
        call_ensures(
            start_sweep,
            (
                plan,
                checks,
                request_id,
                cancel,
                cancelled,
                device,
                job,
                writer_pending,
                source,
                log,
            ),
            (),
        ),
    ensures
        ({
            let valid = acquisition::plan_fault(plan.models(), *checks) is None;
            let quiet = *old(device) is Some && !((*old(device))->0.source.state is Requested)
                && !((*old(device))->0.source.state is Unknown);
            let before = old(log)@.len() as int;
            let told = before + if *old(job) is Some {
                1int
            } else {
                0int
            };
            let after = final(log)@;
            &&& *final(job) is Some <==> valid && quiet && !cancelled
            &&& *old(job) is Some ==> after.len() > before && after[before] == Effect::Cancel(
                (*old(job))->0.cancel,
            )
            &&& *final(job) is Some ==> {
                let run = (*final(job))->0;
                &&& run.request_id == request_id && run.cancel == cancel && run.plan == plan
                &&& run.next_group == 0 && run.pass_id == 1 && run.pass@.len() == 0
                &&& run.phase is Saving <==> writer_pending
                &&& run.phase is Acquiring <==> !writer_pending
                &&& *final(device) == *old(device)
                &&& after.len() == told + 1
                &&& writer_pending ==> tells(
                    after[told],
                    source,
                    WorkerEvent::RunProgress(RunProgress::Saving),
                )
                &&& !writer_pending ==> tells(
                    after[told],
                    source,
                    WorkerEvent::RunProgress(RunProgress::Acquiring),
                )
            }
            &&& cancelled ==> *final(device) == *old(device) && after.len() == told
            &&& !cancelled && valid && *old(device) is None ==> after.len() == told + 1 && tells(
                after[told],
                source,
                WorkerEvent::ConnectionLost(
                    Message::Failure { context: Context::Run, error: DeviceError::NotConnected },
                ),
            )
            &&& !cancelled && valid && *old(device) is Some && !quiet && !(*old(device))->0.requires_reconnect ==> after.len() == told + 1 && tells(
                after[told],
                source,
                WorkerEvent::Error(
                    Message::Failure { context: Context::Run, error: DeviceError::SourceActive },
                ),
            ) && *final(device) == *old(device)
        }),
{
}

/// A source's answer is told as the instrument gave it. Where the request
/// failed, the last known output is told first, which is unknown without an
/// instrument, and then the failure.
pub proof fn law_sources_are_told(
    result: Result<SourceReport, DeviceError>,
    device: &mut Option<DeviceStatus>,
    job: &mut Option<SweepRequest>,
    source: WorkerIdentity,
    log: &mut Vec<Effect>,
)
    requires
        call_ensures(source_result, (result, device, job, source, log), ()),
    ensures
        ({
            let before = old(log)@.len() as int;
            let after = final(log)@;
            &&& after.len() > before
            &&& result is Ok ==> after.len() == before + 1 && tells(
                after[before],
                source,
                WorkerEvent::SourceReport(result->Ok_0),
            ) && *final(device) == *old(device) && *final(job) == *old(job)
            &&& result is Err ==> *final(job) is None && after[before] is Emit
            &&& result is Err && *old(device) is Some ==> tells(
                after[before],
                source,
                WorkerEvent::SourceReport((*old(device))->0.source),
            )
            &&& result is Err && *old(device) is None ==> {
                let event = after[before]->Emit_0.event;
                event is SourceReport && event->SourceReport_0.state is Unknown
                    && event->SourceReport_0.warning is None
            }
            &&& result is Err && *old(job) is Some ==> after[before + 1] == Effect::Cancel(
                (*old(job))->0.cancel,
            )
            &&& result is Err && !(result->Err_0 is Cancelled) && !(result->Err_0 is Io)
                && !(result->Err_0 is NotConnected) && !(result->Err_0 is Timeout)
                && !(result->Err_0 is Protocol) && !(*old(device) is Some && (*old(device))->0.requires_reconnect) ==> tells(
                after.last(),
                source,
                WorkerEvent::Error(
                    Message::Failure { context: Context::Source, error: result->Err_0 },
                ),
            ) && *final(device) == *old(device)
        }),
{
}

/// A calibration's answer is told as the instrument gave it. Where the request
/// failed, the last known progress is told, and a link that has to be opened
/// anew is closed before anything is told of it.
pub proof fn law_calibrations_are_told(
    result: Result<CalibrationReport, DeviceError>,
    device: &mut Option<DeviceStatus>,
    job: &mut Option<SweepRequest>,
    source: WorkerIdentity,
    log: &mut Vec<Effect>,
)
    requires
        call_ensures(calibration_result, (result, device, job, source, log), ()),
    ensures
        ({
            let before = old(log)@.len() as int;
            let after = final(log)@;
            let broken = *old(device) is Some && (*old(device))->0.requires_reconnect;
            &&& after.len() > before
            &&& result is Ok ==> after.len() == before + 1 && tells(
                after[before],
                source,
                WorkerEvent::CalibrationReport(result->Ok_0),
            ) && *final(device) == *old(device) && *final(job) == *old(job)
            &&& result is Err ==> *final(job) is None
            &&& result is Err && broken ==> *final(device) is None && after[before] is Close && tells(
                after[before + 1],
                source,
                WorkerEvent::CalibrationReport((*old(device))->0.calibration),
            ) && tells(
                after.last(),
                source,
                WorkerEvent::ConnectionLost(
                    Message::Failure { context: Context::Calibration, error: result->Err_0 },
                ),
            )
            &&& result is Err && !broken && *old(device) is Some ==> tells(
                after[before],
                source,
                WorkerEvent::CalibrationReport((*old(device))->0.calibration),
            )
            &&& result is Err && *old(device) is None ==> after[before] is Emit && {
                let event = after[before]->Emit_0.event;
                event is CalibrationReport && event->CalibrationReport_0.phase is Unknown
                    && event->CalibrationReport_0.kind is None
            }
        }),
{
    let job_effects = discarded(*old(job));
    if result is Err {
        assert(job_effects.len() <= 1);
    }
}

/// A stopped sweep is told as such, and readings as they are. A failed query
/// leaves an open link and a run alone, and is told unless it was cancelled.
pub proof fn law_queries_leave_runs_alone(
    stop: Result<(), DeviceError>,
    result: Result<HealthSnapshot, DeviceError>,
    device: &mut Option<DeviceStatus>,
    job: &mut Option<SweepRequest>,
    source: WorkerIdentity,
    log: &mut Vec<Effect>,
    other_device: &mut Option<DeviceStatus>,
    other_job: &mut Option<SweepRequest>,
    other_log: &mut Vec<Effect>,
)
    requires
        call_ensures(status_result, (result, device, job, source, log), ()),
        call_ensures(stop_result, (stop, other_device, other_job, source, other_log), ()),
    ensures
        ({
            let before = old(log)@.len() as int;
            let after = final(log)@;
            let lost = result is Err && (result->Err_0 is Io || result->Err_0 is NotConnected
                || result->Err_0 is Timeout || result->Err_0 is Protocol || *old(device) is Some
                && (*old(device))->0.requires_reconnect);
            &&& result is Ok ==> after.len() == before + 1 && tells(
                after[before],
                source,
                WorkerEvent::Status(result->Ok_0),
            )
            &&& !lost ==> *final(device) == *old(device) && *final(job) == *old(job)
            &&& lost ==> *final(device) is None && *final(job) is None && tells(
                after.last(),
                source,
                WorkerEvent::ConnectionLost(
                    Message::Failure { context: Context::Status, error: result->Err_0 },
                ),
            )
            &&& result is Err && !lost && result->Err_0 is Cancelled ==> after == old(log)@
            &&& result is Err && !lost && !(result->Err_0 is Cancelled) ==> after.len() == before
                + 1 && tells(
                after[before],
                source,
                WorkerEvent::StatusFailed(
                    Message::Failure { context: Context::Status, error: result->Err_0 },
                ),
            )
        }),
        stop is Ok ==> *final(other_device) == *old(other_device) && *final(other_job) == *old(other_job) && final(other_log)@.len() == old(other_log)@.len() + 1 && tells(
            final(other_log)@.last(),
            source,
            WorkerEvent::SweepStopped,
        ),
        stop is Err ==> *final(other_job) is None,
        stop is Err && stop->Err_0 is Timeout ==> *final(other_device) is None && tells(
            final(other_log)@.last(),
            source,
            WorkerEvent::ConnectionLost(
                Message::Failure { context: Context::Stop, error: stop->Err_0 },
            ),
        ),
        stop is Err && stop->Err_0 is Device && !(*old(other_device) is Some && (*old(other_device))->0.requires_reconnect) ==> *final(other_device) == *old(other_device) && tells(
            final(other_log)@.last(),
            source,
            WorkerEvent::Error(Message::Failure { context: Context::Stop, error: stop->Err_0 }),
        ),
{
}

/// The instrument's condition is read from an instrument without output, and
/// where output may be on the refusal is told.
pub proof fn law_output_blocks_readings(
    device: &Option<DeviceStatus>,
    source: WorkerIdentity,
    log: &mut Vec<Effect>,
    query: bool,
)
    requires
        call_ensures(refresh_status, (device, source, log), query),
    ensures
        ({
            let on = *device is Some && ((*device)->0.source.state is Requested || (
            *device)->0.source.state is Unknown);
            &&& query <==> *device is Some && !on
            &&& on ==> final(log)@.len() == old(log)@.len() + 1 && tells(
                final(log)@.last(),
                source,
                WorkerEvent::StatusFailed(Message::SourceBlocksStatus),
            )
            &&& !on ==> final(log)@ == old(log)@
        }),
{
}

/// A query of the present session waits for its turn and does nothing at once.
/// Only the latest waits, and one of an earlier session no longer.
pub proof fn law_queries_wait_for_their_turn(
    envelope: CommandEnvelope,
    cancelled: bool,
    pending_status: &mut Option<CommandEnvelope>,
    state: &mut WorkerState,
    writer_pending: bool,
    log: &mut Vec<Effect>,
    call: Option<DeviceCall>,
)
    requires
        envelope.is_checked(),
        call_ensures(
            handle_or_defer,
            (envelope, cancelled, pending_status, state, writer_pending, log),
            call,
        ),
    ensures
        envelope.command is RefreshStatus ==> call is None && *final(state) == *old(state) && final(log)@ == old(log)@,
        envelope.command is RefreshStatus && envelope.session_id == old(state).identity.session_id
            ==> *final(pending_status) == Some(envelope),
        envelope.command is RefreshStatus && envelope.session_id != old(state).identity.session_id
            ==> *final(pending_status) == *old(pending_status),
        !(envelope.command is RefreshStatus) && *old(pending_status) is Some && (*old(pending_status))->0.session_id == final(state).identity.session_id ==> *final(pending_status) == *old(pending_status),
        !(envelope.command is RefreshStatus) && (*old(pending_status) is None || (*old(pending_status))->0.session_id != final(state).identity.session_id) ==> *final(pending_status) is None,
{
}

/// A source belongs to the last request that could start it: one of the present
/// session, not older than the last, not cancelled, which the instrument takes.
/// A request that leaves a running source alone is guarded by its flag.
pub proof fn law_sources_belong_to_their_request(
    envelope: &CommandEnvelope,
    cancelled: bool,
    identity: WorkerIdentity,
    owner: &mut Option<RequestOwner>,
    device: &Option<DeviceStatus>,
    other: &Option<RequestOwner>,
    guard: Option<Token>,
)
    requires
        envelope.is_checked(),
        call_ensures(track_source_request, (envelope, cancelled, identity, owner), ()),
        call_ensures(source_rejection_guard, (envelope, device, other), guard),
    ensures
        ({
            let starts = envelope.command is StartSource && envelope.checks.devices@[0] is None
                && envelope.session_id == identity.session_id && envelope.request_id
                >= identity.request_id && !cancelled;
            &&& starts ==> *final(owner) is Some && (*final(owner))->0.identity.session_id
                == envelope.session_id && (*final(owner))->0.identity.request_id
                == envelope.request_id && (*final(owner))->0.cancel == envelope.cancel
            &&& !starts ==> *final(owner) == *old(owner)
        }),
        guard is Some ==> *other is Some && guard->0 == (*other)->0.cancel,
        guard is Some <==> *other is Some && *device is Some && (
        *device)->0.source.state is Requested && (envelope.command is RefreshStatus
            || envelope.command is RunWorkspace || envelope.command is StartCalibration
            || envelope.command is AdvanceCalibration || envelope.command is CancelCalibration
            || envelope.command is StartSource && envelope.checks.devices@[0] is Some),
{
}

/// A run that is dropped is cancelled. One that the recorder failed is, too, and
/// the failure is told.
pub proof fn law_dropped_runs_are_cancelled(
    job: &mut Option<SweepRequest>,
    log: &mut Vec<Effect>,
    error: PassError,
    other: &mut Option<SweepRequest>,
    source: WorkerIdentity,
    other_log: &mut Vec<Effect>,
)
    requires
        call_ensures(discard_job, (job, log), ()),
        call_ensures(recording_failed, (error, other, source, other_log), ()),
    ensures
        *final(job) is None,
        *old(job) is Some ==> final(log)@ == old(log)@.push(
            Effect::Cancel((*old(job))->0.cancel),
        ),
        *old(job) is None ==> final(log)@ == old(log)@,
        *final(other) is None,
        tells(final(other_log)@.last(), source, WorkerEvent::Error(Message::Recording(error))),
        *old(other) is Some ==> final(other_log)@.len() == old(other_log)@.len() + 2 && final(other_log)@[old(other_log)@.len() as int] == Effect::Cancel((*old(other))->0.cancel),
        *old(other) is None ==> final(other_log)@.len() == old(other_log)@.len() + 1,
{
    assert(old(log)@ + seq![] =~= old(log)@);
}

/// A new run has measured nothing: it begins with the first group of its first
/// pass. A new list begins with its first frequency.
pub proof fn law_new_runs_begin_at_the_beginning(
    request_id: u64,
    cancel: Token,
    plan: SweepPlan,
    request: SweepRequest,
    settings: &PointSettings,
    frequencies_hz: Vec<u64>,
    run: ListRun,
    points: u32,
)
    requires
        call_ensures(SweepRequest::new, (request_id, cancel, plan), request),
        call_ensures(ListRun::new, (settings, frequencies_hz), run),
        call_ensures(ListRun::expected_points, (&run,), points),
        frequencies_hz@.len() <= u32::MAX,
    ensures
        request.request_id == request_id && request.cancel == cancel && request.plan == plan,
        request.next_group == 0 && request.pass_id == 1 && request.pass@.len() == 0,
        request.phase is Acquiring,
        run.next == 0 && run.frequencies_hz == frequencies_hz && run.data.points@.len() == 0,
        points == frequencies_hz@.len(),
{
}

/// What the recorder's answer on the pass of a run is told as: the file and its
/// pass first, then what the run does next. A run that cannot go on is cancelled
/// and told why: its passes are used up, or its pause would end beyond the clock.
pub proof fn law_saved_passes_are_told(
    state: &mut RecordingState,
    answer: RecordResult,
    identity: WorkerIdentity,
    job: &mut Option<SweepRequest>,
    cancelled: bool,
    clock: Clock,
    log: &mut Vec<Effect>,
)
    requires
        call_ensures(
            RecordingState::accept_result,
            (state, answer, identity, job, cancelled, clock, log),
            (),
        ),
        old(state).pending == Some(answer.key),
        *old(job) is Some,
        !cancelled,
        answer.key.session_id == identity.session_id,
        answer.key.request_id == (*old(job))->0.request_id,
        answer.key.pass_id == (*old(job))->0.pass_id,
        (*old(job))->0.phase is Saving,
    ensures
        ({
            let waiting = (*old(job))->0;
            let source = WorkerIdentity {
                session_id: answer.key.session_id,
                request_id: answer.key.request_id,
            };
            let before = old(log)@.len() as int;
            let after = final(log)@;
            let interval = waiting.plan.run.interval_ms;
            let closes = waiting.pass_id < u64::MAX && (interval == 0 || clock.now + interval
                * 1_000_000 <= clock.latest);
            &&& answer.result matches Ok(Some(path)) ==> tells(
                after[before],
                source,
                WorkerEvent::RunProgress(
                    RunProgress::Saved { path, pass_id: waiting.pass_id },
                ),
            )
            &&& (answer.result is Ok && answer.result->Ok_0 is Some && closes && interval == 0)
                ==> after.len() == before + 2 && tells(
                after[before + 1],
                source,
                WorkerEvent::RunProgress(RunProgress::Acquiring),
            )
            &&& (answer.result is Ok && answer.result->Ok_0 is Some && closes && interval > 0) ==> {
                let event = after[before + 1]->Emit_0.event;
                &&& after.len() == before + 2
                &&& event is RunProgress && event->RunProgress_0 is Waiting
                &&& event->RunProgress_0->until == clock.now + interval * 1_000_000
            }
            &&& (answer.result is Ok && answer.result->Ok_0 is Some && !closes) ==> after.len()
                == before + 3 && after[before + 1] == Effect::Cancel(waiting.cancel) && *final(job) is None
            &&& (answer.result is Ok && answer.result->Ok_0 is Some && waiting.pass_id == u64::MAX)
                ==> tells(
                after[before + 2],
                source,
                WorkerEvent::Error(Message::Recording(PassError::PassIdExhausted)),
            )
            &&& (answer.result is Ok && answer.result->Ok_0 is Some && !closes && waiting.pass_id
                < u64::MAX) ==> tells(
                after[before + 2],
                source,
                WorkerEvent::Error(Message::Recording(PassError::ClockRange)),
            )
            &&& (answer.result is Ok && answer.result->Ok_0 is None) ==> after.len() == before + 1
            &&& answer.result matches Err(words) ==> after.len() == before + 2 && tells(
                after[before + 1],
                source,
                WorkerEvent::Error(Message::Recording(PassError::Recorder(words))),
            )
        }),
{
}

/// Commands without an instrument are answered at once: a sweep has stopped, a
/// source is unknown, a calibration too, and starting any of them lost the link.
pub proof fn law_commands_without_a_link_are_answered(
    envelope: CommandEnvelope,
    state: &mut WorkerState,
    writer_pending: bool,
    log: &mut Vec<Effect>,
    call: Option<DeviceCall>,
)
    requires
        envelope.is_checked(),
        call_ensures(handle_with_recording, (envelope, false, state, writer_pending, log), call),
        old(state).device is None,
        old(state).job is None,
        envelope.session_id == old(state).identity.session_id,
        envelope.request_id >= old(state).identity.request_id,
    ensures
        ({
            let before = old(log)@.len() as int;
            let after = final(log)@;
            let source = WorkerIdentity {
                session_id: envelope.session_id,
                request_id: envelope.request_id,
            };
            let lost = DeviceError::NotConnected;
            &&& envelope.command is StopSweep ==> call is None && after.len() == before + 1 && tells(
                after[before],
                source,
                WorkerEvent::SweepStopped,
            )
            &&& envelope.command is StartSource || envelope.command is StopSource ==> call is None
                && after.len() == before + 2 && after[before] is Emit
                && after[before]->Emit_0.event is SourceReport
                && after[before]->Emit_0.event->SourceReport_0.state is Unknown && tells(
                after[before + 1],
                source,
                WorkerEvent::ConnectionLost(
                    Message::Failure { context: Context::Source, error: lost },
                ),
            )
            &&& envelope.command is StartCalibration || envelope.command is AdvanceCalibration
                || envelope.command is CancelCalibration ==> call is None && after.len() == before
                + 2 && after[before] is Emit && after[before]->Emit_0.event is CalibrationReport
                && after[before]->Emit_0.event->CalibrationReport_0.phase is Unknown && tells(
                after[before + 1],
                source,
                WorkerEvent::ConnectionLost(
                    Message::Failure { context: Context::Calibration, error: lost },
                ),
            )
            &&& envelope.command is RefreshStatus ==> call is None && after == old(log)@
        }),
{
}

} // verus!
