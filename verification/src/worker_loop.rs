//! The worker's loop: which work is next, and what its outcome means.

use std::sync::Arc;
use vstd::prelude::*;

use crate::acquisition::{CompletedSweep, SweepDelivery, TraceId};
use crate::calibration_control;
use crate::calibration_control::{rejection_guard, track_request};
use crate::device_worker;
use crate::device_worker::{
    advance_wait, close, discard_job, emit, fail, handle, handle_or_defer, recording_failed,
    source_rejection_guard, track_source_request, Clock, DeviceCall, Effect, PassStep, RecordKey,
    RecordingState, RequestOwner, RunPhase, SweepRequest, WorkerIdentity, WorkerState,
};
use crate::messages::{
    CommandEnvelope, Context, EventEnvelope, Message, PassError, RunProgress, Token, WorkerCommand,
    WorkerEvent,
};
use crate::model::{
    copied, CalibrationPhase, CalibrationReport, DeviceError, DeviceStatus, SegmentMetadata,
    SourceReport, SweepData,
};

verus! {

/// A command that was taken up.
#[derive(Debug)]
pub struct HandledCommand {
    /// Whom the call's outcome has to be reported to.
    pub source: WorkerIdentity,
    pub cancel: Token,
    /// The flag that makes a refusal pointless to deliver.
    pub guard: Option<Token>,
    pub call: Option<DeviceCall>,
}

/// Instrument traffic that has to be polled before anything else.
#[derive(Debug, Clone, Copy, PartialEq, Eq, Structural)]
pub enum DevicePoll {
    Nothing,
    /// At a prompt the user decides: only shutdown interrupts the poll, since
    /// the request's flag is replaced with each step.
    Calibration { owner: RequestOwner, only_shutdown: bool },
    Source { owner: RequestOwner },
}

/// One acquisition of a group.
#[derive(Debug, Clone, Copy, PartialEq, Eq, Structural)]
pub struct Cycle {
    pub cycle_id: u64,
    pub source: WorkerIdentity,
    pub cancel: Token,
    pub group: usize,
    pub phase: RunPhase,
}

/// A pass for the recorder.
#[derive(Debug)]
pub struct SaveRequest {
    pub key: RecordKey,
    pub snapshots: Vec<(TraceId, Arc<CompletedSweep>)>,
}

/// The whole state of the worker's loop.
#[derive(Debug)]
pub struct Worker {
    pub state: WorkerState,
    pub recording: RecordingState,
    pub cycle_id: u64,
    pub pending_status: Option<CommandEnvelope>,
    pub source_request: Option<RequestOwner>,
    pub calibration_request: Option<RequestOwner>,
}

/// Pairs of trace and frame that a recorded pass gains.
pub open spec fn recorded(members: Seq<TraceId>, snapshot: Arc<CompletedSweep>) -> Seq<
    (TraceId, Arc<CompletedSweep>),
> {
    members.map_values(|id: TraceId| (id, snapshot))
}

/// Rows that a pass holds after a frame.
pub open spec fn pass_after(job: SweepRequest, group: int, snapshot: Arc<CompletedSweep>) -> Seq<
    (TraceId, Arc<CompletedSweep>),
> {
    if job.plan.run.recording.enabled {
        job.pass@ + recorded(job.plan.groups@[group].members@, snapshot)
    } else {
        job.pass@
    }
}

/// The group that follows `group` in turn.
pub open spec fn group_after(job: SweepRequest, group: int) -> int {
    (group + 1) % (job.plan.groups@.len() as int)
}

fn record_members(
    pass: &mut Vec<(TraceId, Arc<CompletedSweep>)>,
    members: &Vec<TraceId>,
    snapshot: &Arc<CompletedSweep>,
)
    ensures
        final(pass)@ == old(pass)@ + recorded(members@, *snapshot),
{
    let mut index: usize = 0;
    while index < members.len()
        invariant
            index <= members@.len(),
            pass@ == old(pass)@ + recorded(members@.take(index as int), *snapshot),
        decreases members@.len() - index,
    {
        pass.push((members[index], snapshot.clone()));
        index = index + 1;
        assert(members@.take(index as int) =~= members@.take(index - 1).push(members@[index - 1]));
        assert(recorded(members@.take(index as int), *snapshot) =~= recorded(
            members@.take(index - 1),
            *snapshot,
        ).push((members@[index - 1], *snapshot)));
        assert(pass@ =~= old(pass)@ + recorded(members@.take(index as int), *snapshot));
    }
    assert(members@.take(index as int) =~= members@);
}

impl Default for Worker {
    fn default() -> (worker: Self)
        ensures
            worker.wf(),
            worker.state.identity == (WorkerIdentity { session_id: 0, request_id: 0 }),
            worker.state.job is None,
            worker.state.device is None,
            worker.recording.pending is None,
            worker.cycle_id == 0,
            worker.pending_status is None,
            worker.source_request is None,
            worker.calibration_request is None,
    {
        Worker {
            state: WorkerState { identity: WorkerIdentity::default(), device: None, job: None },
            recording: RecordingState::default(),
            cycle_id: 0,
            pending_status: None,
            source_request: None,
            calibration_request: None,
        }
    }
}

impl Worker {
    /// The job can go on, and whatever the instrument is doing has an owner.
    pub open spec fn wf(self) -> bool {
        &&& self.state.wf()
        &&& calibration_control::calibration_active(self.state.device)
            ==> self.calibration_request is Some
        &&& self.state.device is Some && self.state.device->0.source.requested()
            ==> self.source_request is Some
    }

    /// What waits for the end of a frame is a status query of the present session.
    pub open spec fn keeps_current_status(self) -> bool {
        self.pending_status matches Some(status) ==> status.command is RefreshStatus
            && status.session_id == self.state.identity.session_id
    }

    /// Whether there is nothing to measure until a command or an answer comes.
    pub open spec fn idles(self) -> bool {
        self.state.device is None || self.state.job is None || !(
        self.state.job->0.phase is Acquiring) || self.recording.pending is Some
    }

    pub fn waits(&self) -> (waits: bool)
        ensures
            waits == self.idles(),
    {
        if self.state.device.is_none() || self.recording.pending.is_some() {
            return true;
        }
        match &self.state.job {
            None => true,
            Some(job) => job.phase != RunPhase::Acquiring,
        }
    }

    /// Take up a command, or leave the loop on a request to shut down.
    pub fn on_command(
        &mut self,
        envelope: CommandEnvelope,
        cancelled: bool,
        log: &mut Vec<Effect>,
    ) -> (step: Option<HandledCommand>)
        requires
            old(self).state.wf(),
            envelope.is_checked(),
        ensures
            final(self).state.wf(),
            old(self).wf() ==> final(self).wf(),
            final(self).recording == old(self).recording,
            final(self).cycle_id == old(self).cycle_id,
            old(self).keeps_current_status() ==> final(self).keeps_current_status(),
            if envelope.command is Shutdown {
                step is None && *final(self) == *old(self) && final(log)@ == old(log)@
            } else {
                &&& step is Some
                &&& step->0.source == device_worker::sender(envelope)
                &&& step->0.cancel == envelope.cancel
                &&& final(self).source_request == device_worker::source_owner(
                    envelope,
                    cancelled,
                    old(self).state.identity,
                    old(self).source_request,
                )
                &&& final(self).calibration_request == calibration_control::calibration_owner(
                    envelope,
                    cancelled,
                    old(self).state.identity,
                    old(self).state.device,
                    old(self).calibration_request,
                )
                &&& step->0.guard == first_guard(
                    envelope,
                    old(self).state.device,
                    final(self).source_request,
                    final(self).calibration_request,
                )
                &&& if envelope.command is RefreshStatus {
                    &&& step->0.call is None
                    &&& final(self).state == old(self).state
                    &&& final(log)@ == old(log)@
                    &&& final(self).pending_status == if envelope.session_id == old(self).state.identity.session_id {
                        Some(envelope)
                    } else {
                        old(self).pending_status
                    }
                } else {
                    &&& device_worker::handled(
                        envelope,
                        cancelled,
                        old(self).state,
                        old(self).recording.pending is Some,
                        final(self).state,
                        step->0.call,
                    )
                    &&& final(log)@ == old(log)@ + device_worker::handled_effects(
                        envelope,
                        cancelled,
                        old(self).state,
                        old(self).recording.pending is Some,
                    )
                    &&& final(self).pending_status == match old(self).pending_status {
                        Some(status) => if status.session_id
                            == final(self).state.identity.session_id {
                            Some(status)
                        } else {
                            None
                        },
                        None => None,
                    }
                }
            },
    {
        let leaves = matches!(&envelope.command, WorkerCommand::Shutdown);
        if leaves {
            return None;
        }
        let source = WorkerIdentity {
            session_id: envelope.session_id,
            request_id: envelope.request_id,
        };
        let cancel = envelope.cancel;
        track_source_request(
            &envelope,
            cancelled,
            self.state.identity,
            &mut self.source_request,
        );
        track_request(
            &envelope,
            cancelled,
            self.state.identity,
            &self.state.device,
            &mut self.calibration_request,
        );
        let guard = self.guard(&envelope);
        let call = handle_or_defer(
            envelope,
            cancelled,
            &mut self.pending_status,
            &mut self.state,
            self.recording.pending.is_some(),
            log,
        );
        Some(HandledCommand { source, cancel, guard, call })
    }

    /// The flag that makes a refusal of `envelope` pointless to deliver.
    fn guard(&self, envelope: &CommandEnvelope) -> (guard: Option<Token>)
        requires
            envelope.is_checked(),
        ensures
            guard == first_guard(
                *envelope,
                self.state.device,
                self.source_request,
                self.calibration_request,
            ),
    {
        match source_rejection_guard(envelope, &self.state.device, &self.source_request) {
            Some(token) => Some(token),
            None => rejection_guard(envelope, &self.state.device, &self.calibration_request),
        }
    }

    /// Answer the status query that was kept, at the end of a frame.
    pub fn take_status(&mut self, cancelled: bool, log: &mut Vec<Effect>) -> (step: Option<
        HandledCommand,
    >)
        requires
            old(self).state.wf(),
            old(self).keeps_current_status(),
        ensures
            final(self).state.wf(),
            old(self).wf() ==> final(self).wf(),
            final(self).recording == old(self).recording,
            final(self).cycle_id == old(self).cycle_id,
            final(self).pending_status is None,
            final(self).source_request == old(self).source_request,
            final(self).calibration_request == old(self).calibration_request,
            match old(self).pending_status {
                None => step is None && final(self).state == old(self).state && final(log)@ == old(log)@,
                Some(envelope) => {
                    &&& step is Some
                    &&& step->0.source == device_worker::sender(envelope)
                    &&& step->0.cancel == envelope.cancel
                    &&& step->0.guard == first_guard(
                        envelope,
                        old(self).state.device,
                        old(self).source_request,
                        old(self).calibration_request,
                    )
                    &&& device_worker::handled(
                        envelope,
                        cancelled,
                        old(self).state,
                        false,
                        final(self).state,
                        step->0.call,
                    )
                    &&& final(log)@ == old(log)@ + device_worker::handled_effects(
                        envelope,
                        cancelled,
                        old(self).state,
                        false,
                    )
                },
            },
    {
        let Some(envelope) = self.pending_status.take() else {
            return None;
        };
        let source = WorkerIdentity {
            session_id: envelope.session_id,
            request_id: envelope.request_id,
        };
        let cancel = envelope.cancel;
        let guard = self.guard(&envelope);
        let call = handle(envelope, cancelled, &mut self.state, log);
        Some(HandledCommand { source, cancel, guard, call })
    }

    /// What has to be polled: a calibration before a source, both before any
    /// acquisition.
    pub open spec fn due_poll(self) -> DevicePoll {
        if calibration_control::calibration_active(self.state.device) {
            DevicePoll::Calibration {
                owner: self.calibration_request->0,
                only_shutdown: self.state.device->0.calibration.phase is Prompt,
            }
        } else if self.state.device is Some && self.state.device->0.source.requested() {
            DevicePoll::Source { owner: self.source_request->0 }
        } else {
            DevicePoll::Nothing
        }
    }

    pub fn poll(&self) -> (poll: DevicePoll)
        requires
            self.wf(),
        ensures
            poll == self.due_poll(),
    {
        let Some(status) = &self.state.device else {
            return DevicePoll::Nothing;
        };
        if status.calibration.is_active() {
            if let Some(owner) = self.calibration_request {
                let only_shutdown = matches!(
                    status.calibration.phase,
                    CalibrationPhase::Prompt(_)
                );
                return DevicePoll::Calibration { owner, only_shutdown };
            }
        }
        if status.source.is_requested() {
            if let Some(owner) = self.source_request {
                return DevicePoll::Source { owner };
            }
        }
        DevicePoll::Nothing
    }

    /// Take the outcome of polling a calibration, and the instrument's state
    /// after it. A failure releases the instrument before it is reported.
    pub fn calibration_polled(
        &mut self,
        owner: RequestOwner,
        result: Result<CalibrationReport, DeviceError>,
        status: DeviceStatus,
        log: &mut Vec<Effect>,
    )
        requires
            old(self).state.wf(),
            old(self).state.device is Some,
        ensures
            final(self).state.wf(),
            final(self).state.identity == old(self).state.identity,
            final(self).recording == old(self).recording,
            final(self).cycle_id == old(self).cycle_id,
            final(self).pending_status == old(self).pending_status,
            final(self).source_request == old(self).source_request,
            final(self).calibration_request == old(self).calibration_request,
            match result {
                Ok(report) => {
                    &&& final(self).state.device == Some(status)
                    &&& final(self).state.job == old(self).state.job
                    &&& final(log)@ == if report == old(self).state.device->0.calibration {
                        old(log)@
                    } else {
                        old(log)@ + device_worker::emitted(owner.identity, WorkerEvent::CalibrationReport(report))
                    }
                },
                Err(error) => {
                    &&& final(self).state.device is None
                    &&& final(self).state.job is None
                    &&& final(log)@ == old(log)@ + seq![Effect::Close] + device_worker::discarded(
                        old(self).state.job,
                    ) + device_worker::emitted(owner.identity, WorkerEvent::CalibrationReport(status.calibration))
                        + device_worker::emitted(
                        owner.identity,
                        WorkerEvent::ConnectionLost(
                            Message::Failure { context: Context::Calibration, error },
                        ),
                    )
                },
            },
    {
        let before = match &self.state.device {
            Some(device) => device.calibration,
            None => status.calibration,
        };
        match result {
            Ok(report) => {
                self.state.device = Some(status);
                if report != before {
                    emit(owner.identity, WorkerEvent::CalibrationReport(report), log);
                }
            },
            Err(error) => {
                close(&mut self.state.device, log);
                discard_job(&mut self.state.job, log);
                emit(owner.identity, WorkerEvent::CalibrationReport(status.calibration), log);
                emit(
                    owner.identity,
                    WorkerEvent::ConnectionLost(
                        Message::Failure { context: Context::Calibration, error },
                    ),
                    log,
                );
            },
        }
    }

    /// Take the outcome of polling a source, and the instrument's state after
    /// it. A late failure can leave output on, so the instrument is released
    /// before anything is reported.
    pub fn source_polled(
        &mut self,
        owner: RequestOwner,
        result: Result<SourceReport, DeviceError>,
        status: DeviceStatus,
        log: &mut Vec<Effect>,
    )
        requires
            old(self).state.wf(),
            old(self).state.device is Some,
        ensures
            final(self).state.wf(),
            final(self).state.identity == old(self).state.identity,
            final(self).recording == old(self).recording,
            final(self).cycle_id == old(self).cycle_id,
            final(self).pending_status == old(self).pending_status,
            final(self).source_request == old(self).source_request,
            final(self).calibration_request == old(self).calibration_request,
            match result {
                Ok(report) => {
                    &&& final(self).state.device == Some(status)
                    &&& final(self).state.job == old(self).state.job
                    &&& final(log)@ == if report == old(self).state.device->0.source {
                        old(log)@
                    } else {
                        old(log)@ + device_worker::emitted(owner.identity, WorkerEvent::SourceReport(report))
                    }
                },
                Err(error) => {
                    &&& final(self).state.device is None
                    &&& final(self).state.job is None
                    &&& final(log)@ == old(log)@ + seq![Effect::Close] + device_worker::discarded(
                        old(self).state.job,
                    ) + device_worker::emitted(owner.identity, WorkerEvent::SourceReport(status.source)) + device_worker::emitted(
                        owner.identity,
                        WorkerEvent::ConnectionLost(
                            Message::Failure { context: Context::Source, error },
                        ),
                    )
                },
            },
    {
        let before = match &self.state.device {
            Some(device) => device.source,
            None => status.source,
        };
        match result {
            Ok(report) => {
                self.state.device = Some(status);
                if report != before {
                    emit(owner.identity, WorkerEvent::SourceReport(report), log);
                }
            },
            Err(error) => {
                close(&mut self.state.device, log);
                discard_job(&mut self.state.job, log);
                emit(owner.identity, WorkerEvent::SourceReport(status.source), log);
                emit(
                    owner.identity,
                    WorkerEvent::ConnectionLost(
                        Message::Failure { context: Context::Source, error },
                    ),
                    log,
                );
            },
        }
    }

    /// Whether the loop may acquire now. A cancelled job is dropped first, and
    /// a pause that is over ends with a report.
    pub fn settle(&mut self, cancelled: bool, now: u128, log: &mut Vec<Effect>) -> (ready: bool)
        requires
            old(self).state.wf(),
        ensures
            final(self).state.wf(),
            final(self).state.identity == old(self).state.identity,
            final(self).state.device == old(self).state.device,
            final(self).recording == old(self).recording,
            final(self).cycle_id == old(self).cycle_id,
            final(self).pending_status == old(self).pending_status,
            final(self).source_request == old(self).source_request,
            final(self).calibration_request == old(self).calibration_request,
            match old(self).state.job {
                None => final(self).state.job is None && final(log)@ == old(log)@,
                Some(job) => if cancelled {
                    final(self).state.job is None && final(log)@ == old(log)@
                        + device_worker::discarded(old(self).state.job)
                } else if resumes(job, old(self).recording.pending is Some, now) {
                    final(self).state.job == Some(
                        SweepRequest { phase: RunPhase::Acquiring, ..job },
                    ) && final(log)@ == old(log)@ + device_worker::emitted(
                        WorkerIdentity {
                            session_id: old(self).state.identity.session_id,
                            request_id: job.request_id,
                        },
                        WorkerEvent::RunProgress(RunProgress::Acquiring),
                    )
                } else {
                    final(self).state.job == old(self).state.job && final(log)@ == old(log)@
                },
            },
            ready == (old(self).recording.pending is None && (final(self).state.job is Some
                ==> final(self).state.job->0.phase is Acquiring)),
    {
        if cancelled {
            discard_job(&mut self.state.job, log);
        }
        let pending = self.recording.pending.is_some();
        if let Some(mut job) = self.state.job.take() {
            if let Some(progress) = advance_wait(&mut job, pending, now) {
                let source = WorkerIdentity {
                    session_id: self.state.identity.session_id,
                    request_id: job.request_id,
                };
                emit(source, WorkerEvent::RunProgress(progress), log);
            }
            self.state.job = Some(job);
        }
        let measuring = match &self.state.job {
            Some(job) => job.phase == RunPhase::Acquiring,
            None => true,
        };
        !pending && measuring
    }

    /// Begin the next group's acquisition, if there is an instrument and a
    /// job. A job that was cancelled meanwhile is dropped.
    pub fn begin_cycle(&mut self, cancelled: bool, log: &mut Vec<Effect>) -> (cycle: Option<Cycle>)
        requires
            old(self).state.wf(),
            old(self).cycle_id < u64::MAX,
        ensures
            final(self).state.wf(),
            final(self).state.identity == old(self).state.identity,
            final(self).state.device == old(self).state.device,
            final(self).recording == old(self).recording,
            final(self).pending_status == old(self).pending_status,
            final(self).source_request == old(self).source_request,
            final(self).calibration_request == old(self).calibration_request,
            if old(self).state.device is None || old(self).state.job is None {
                cycle is None && *final(self) == *old(self) && final(log)@ == old(log)@
            } else if cancelled {
                cycle is None && final(self).state.job is None && final(self).cycle_id == old(self).cycle_id && final(log)@ == old(log)@ + device_worker::discarded(
                    old(self).state.job,
                )
            } else {
                &&& final(self).state.job == old(self).state.job
                &&& final(self).cycle_id == old(self).cycle_id + 1
                &&& final(log)@ == old(log)@
                &&& cycle == Some(
                    Cycle {
                        cycle_id: (old(self).cycle_id + 1) as u64,
                        source: WorkerIdentity {
                            session_id: old(self).state.identity.session_id,
                            request_id: old(self).state.job->0.request_id,
                        },
                        cancel: old(self).state.job->0.cancel,
                        group: old(self).state.job->0.next_group,
                        phase: old(self).state.job->0.phase,
                    },
                )
            },
    {
        if self.state.device.is_none() || self.state.job.is_none() {
            return None;
        }
        if cancelled {
            discard_job(&mut self.state.job, log);
            return None;
        }
        self.cycle_id = self.cycle_id + 1;
        match &self.state.job {
            Some(job) => Some(
                Cycle {
                    cycle_id: self.cycle_id,
                    source: WorkerIdentity {
                        session_id: self.state.identity.session_id,
                        request_id: job.request_id,
                    },
                    cancel: job.cancel,
                    group: job.next_group,
                    phase: job.phase,
                },
            ),
            None => None,
        }
    }

    /// Whether rows that came in are shown before their frame is complete: at the
    /// beginning of a frame or of a segment, and then from time to time.
    /// `rows` counts the rows so far, `segment_rows` those of the present segment.
    pub fn preview_wanted(
        cancelled: bool,
        shutdown: bool,
        last: Option<u128>,
        rows: usize,
        segment_rows: Option<u32>,
        now: u128,
    ) -> (wanted: bool)
        ensures
            wanted == (!cancelled && !shutdown && (rows == 0 || segment_rows == Some(0u32)
                || last is None || now - last->0 >= device_worker::PREVIEW_INTERVAL)),
    {
        let segment_begins = match segment_rows {
            Some(count) => count == 0,
            None => false,
        };
        !cancelled && !shutdown && device_worker::preview_due(
            last,
            rows == 0 || segment_begins,
            now,
        )
    }

    /// Address a complete frame to the traces of its group.
    pub fn delivery(
        &self,
        cycle: &Cycle,
        data: SweepData,
        segments: Option<SegmentMetadata>,
        completed_at: u64,
    ) -> (event: EventEnvelope)
        requires
            self.state.job is Some,
            cycle.group < self.state.job->0.plan.groups@.len(),
        ensures
            event.session_id == cycle.source.session_id,
            event.request_id == cycle.source.request_id,
            event.cycle_id == Some(cycle.cycle_id),
            event.event matches WorkerEvent::SweepTrace(delivery) && delivery.members@
                == self.state.job->0.plan.groups@[cycle.group as int].members@
                && delivery.snapshot.data == data && delivery.snapshot.segments == segments
                && delivery.snapshot.settings@ == self.state.job->0.plan.groups@[cycle.group as int].settings@
                && delivery.snapshot.session_id == cycle.source.session_id
                && delivery.snapshot.completed_at == completed_at,
    {
        match &self.state.job {
            Some(job) => {
                let group = &job.plan.groups[cycle.group];
                let snapshot = Arc::new(
                    CompletedSweep {
                        data,
                        segments,
                        settings: group.settings.clone(),
                        session_id: cycle.source.session_id,
                        completed_at,
                    },
                );
                let members = copied(&group.members);
                EventEnvelope {
                    session_id: cycle.source.session_id,
                    request_id: cycle.source.request_id,
                    cycle_id: Some(cycle.cycle_id),
                    event: WorkerEvent::SweepTrace(SweepDelivery { members, snapshot }),
                }
            },
            None => cycle.source.event(WorkerEvent::SweepStopped),
        }
    }

    /// After a frame was delivered: note it for the recording, turn to the
    /// next group, and close the pass when all groups had their turn.
    ///
    /// `cancelled` tells whether the job's or the shutdown flag is up. The
    /// result is a pass for the recorder, whose answer `pass_submitted` takes.
    pub fn delivered(
        &mut self,
        cycle: &Cycle,
        snapshot: &Arc<CompletedSweep>,
        cancelled: bool,
        clock: Clock,
        log: &mut Vec<Effect>,
    ) -> (save: Option<SaveRequest>)
        requires
            old(self).state.wf(),
            old(self).state.job is Some ==> cycle.group == old(self).state.job->0.next_group,
        ensures
            final(self).state.wf(),
            final(self).state.identity == old(self).state.identity,
            final(self).state.device == old(self).state.device,
            final(self).recording == old(self).recording,
            final(self).cycle_id == old(self).cycle_id,
            final(self).pending_status == old(self).pending_status,
            final(self).source_request == old(self).source_request,
            final(self).calibration_request == old(self).calibration_request,
            match old(self).state.job {
                None => save is None && final(self).state.job is None && final(log)@ == old(log)@,
                Some(job) => if cancelled {
                    save is None && final(self).state.job is None && final(log)@ == old(log)@
                        + device_worker::discarded(old(self).state.job)
                } else if group_after(job, cycle.group as int) != 0 {
                    &&& save is None
                    &&& final(log)@ == old(log)@
                    &&& final(self).state.job is Some
                    &&& turned(job, final(self).state.job->0, cycle.group as int)
                    &&& final(self).state.job->0.pass@ == pass_after(
                        job,
                        cycle.group as int,
                        *snapshot,
                    )
                    &&& final(self).state.job->0.pass_id == job.pass_id
                    &&& final(self).state.job->0.phase == job.phase
                } else if !job.plan.run.recording.enabled {
                    &&& save is None
                    &&& if device_worker::pass_closes(job, clock) {
                        let progress = device_worker::progress_after(job, clock);
                        &&& final(self).state.job is Some
                        &&& turned(job, final(self).state.job->0, cycle.group as int)
                        &&& final(self).state.job->0.pass@ == job.pass@
                        &&& final(self).state.job->0.pass_id == job.pass_id + 1
                        &&& final(self).state.job->0.phase == phase_of(progress)
                        &&& final(log)@ == if phase_of(progress) != cycle.phase {
                            old(log)@ + device_worker::emitted(
                                cycle.source,
                                WorkerEvent::RunProgress(progress),
                            )
                        } else {
                            old(log)@
                        }
                    } else {
                        final(self).state.job is None && final(log)@ == old(log)@
                            + device_worker::discarded(old(self).state.job)
                            + device_worker::emitted(
                            cycle.source,
                            WorkerEvent::Error(
                                Message::Recording(device_worker::pass_refusal(job)),
                            ),
                        )
                    }
                } else if old(self).recording.pending is Some {
                    save is None && final(self).state.job is None && final(log)@ == old(log)@
                        + device_worker::discarded(old(self).state.job) + device_worker::emitted(
                        cycle.source,
                        WorkerEvent::Error(Message::Recording(PassError::StillPending)),
                    )
                } else {
                    &&& final(log)@ == old(log)@
                    &&& save is Some
                    &&& save->0.key == (RecordKey {
                        session_id: cycle.source.session_id,
                        request_id: job.request_id,
                        pass_id: job.pass_id,
                    })
                    &&& save->0.snapshots@ == pass_after(job, cycle.group as int, *snapshot)
                    &&& final(self).state.job is Some
                    &&& turned(job, final(self).state.job->0, cycle.group as int)
                    &&& final(self).state.job->0.pass@.len() == 0
                    &&& final(self).state.job->0.pass_id == job.pass_id
                    &&& final(self).state.job->0.phase == job.phase
                },
            },
    {
        if cancelled {
            discard_job(&mut self.state.job, log);
            return None;
        }
        let Some(mut job) = self.state.job.take() else {
            return None;
        };
        let ghost before = job;
        let count: usize = job.plan.groups.len();
        if job.plan.run.recording.enabled {
            record_members(&mut job.pass, &job.plan.groups[cycle.group].members, snapshot);
        }
        let next: usize = if cycle.group + 1 < count {
            cycle.group + 1
        } else {
            0
        };
        proof {
            if cycle.group + 1 < count {
                assert((cycle.group + 1) % (count as int) == cycle.group + 1) by (nonlinear_arith)
                    requires
                        0 <= cycle.group + 1 < count,
                ;
            } else {
                assert((cycle.group + 1) % (count as int) == 0) by (nonlinear_arith)
                    requires
                        cycle.group + 1 == count,
                        count > 0,
                ;
            }
        }
        job.next_group = next;
        if next != 0 {
            self.state.job = Some(job);
            return None;
        }
        let step = self.recording.finish_pass(cycle.source.session_id, &mut job, clock);
        match step {
            PassStep::Done(progress) => {
                if job.phase != cycle.phase {
                    emit(cycle.source, WorkerEvent::RunProgress(progress), log);
                }
                self.state.job = Some(job);
                None
            },
            PassStep::Refused(error) => {
                self.state.job = Some(job);
                recording_failed(error, &mut self.state.job, cycle.source, log);
                None
            },
            PassStep::Save { key, snapshots } => {
                self.state.job = Some(job);
                Some(SaveRequest { key, snapshots })
            },
        }
    }

    /// Take the recorder's word on whether it accepted a pass.
    pub fn pass_submitted(
        &mut self,
        key: RecordKey,
        accepted: Result<(), String>,
        cycle: &Cycle,
        log: &mut Vec<Effect>,
    )
        requires
            old(self).state.wf(),
            old(self).state.job is Some,
        ensures
            final(self).state.wf(),
            final(self).state.identity == old(self).state.identity,
            final(self).state.device == old(self).state.device,
            final(self).cycle_id == old(self).cycle_id,
            final(self).pending_status == old(self).pending_status,
            final(self).source_request == old(self).source_request,
            final(self).calibration_request == old(self).calibration_request,
            match accepted {
                Ok(_) => {
                    &&& final(self).recording.pending == Some(key)
                    &&& final(self).state.job == Some(
                        SweepRequest { phase: RunPhase::Saving, ..old(self).state.job->0 },
                    )
                    &&& final(log)@ == if cycle.phase is Saving {
                        old(log)@
                    } else {
                        old(log)@ + device_worker::emitted(
                            cycle.source,
                            WorkerEvent::RunProgress(RunProgress::Saving),
                        )
                    }
                },
                Err(words) => {
                    &&& final(self).recording.pending == old(self).recording.pending
                    &&& final(self).state.job is None
                    &&& final(log)@ == old(log)@ + device_worker::discarded(old(self).state.job)
                        + device_worker::emitted(
                        cycle.source,
                        WorkerEvent::Error(Message::Recording(PassError::Recorder(words))),
                    )
                },
            },
    {
        let Some(mut job) = self.state.job.take() else {
            return;
        };
        let result = self.recording.save_submitted(key, accepted, &mut job);
        let phase = job.phase;
        self.state.job = Some(job);
        match result {
            Ok(progress) => {
                if phase != cycle.phase {
                    emit(cycle.source, WorkerEvent::RunProgress(progress), log);
                }
            },
            Err(error) => recording_failed(error, &mut self.state.job, cycle.source, log),
        }
    }

    /// A frame could not be acquired.
    pub fn acquisition_failed(&mut self, cycle: &Cycle, error: DeviceError, log: &mut Vec<Effect>)
        ensures
            final(self).state.wf(),
            final(self).state.identity == old(self).state.identity,
            final(self).state.job is None,
            final(self).state.device == device_worker::device_after_failure(
                error,
                old(self).state.device,
            ),
            final(self).recording == old(self).recording,
            final(self).cycle_id == old(self).cycle_id,
            final(self).pending_status == old(self).pending_status,
            final(self).source_request == old(self).source_request,
            final(self).calibration_request == old(self).calibration_request,
            final(log)@ == old(log)@ + device_worker::failure_effects(
                error,
                Context::Sweep,
                old(self).state.device,
                old(self).state.job,
                cycle.source,
            ),
    {
        fail(
            error,
            Context::Sweep,
            &mut self.state.device,
            &mut self.state.job,
            cycle.source,
            log,
        );
    }

    /// Leave the loop: drop the job, then release the instrument. The
    /// recorder may take its time afterwards.
    pub fn shut_down(&mut self, log: &mut Vec<Effect>)
        ensures
            final(self).state.job is None,
            final(self).state.device is None,
            final(self).state.identity == old(self).state.identity,
            final(self).recording == old(self).recording,
            final(self).cycle_id == old(self).cycle_id,
            final(self).pending_status == old(self).pending_status,
            final(self).source_request == old(self).source_request,
            final(self).calibration_request == old(self).calibration_request,
            final(log)@ == old(log)@ + device_worker::discarded(old(self).state.job)
                + device_worker::closed(old(self).state.device),
    {
        discard_job(&mut self.state.job, log);
        close(&mut self.state.device, log);
    }
}

/// Whether a pause is over.
pub open spec fn resumes(job: SweepRequest, writer_pending: bool, now: u128) -> bool {
    !writer_pending && (job.phase is Saving || (job.phase matches RunPhase::Waiting { until } && now
        >= until))
}

/// The phase that a report announces.
pub open spec fn phase_of(progress: RunProgress) -> RunPhase {
    match progress {
        RunProgress::Waiting { until } => RunPhase::Waiting { until },
        _ => RunPhase::Acquiring,
    }
}

/// Whether a job kept its identity and plan and turned to the next group.
pub open spec fn turned(before: SweepRequest, after: SweepRequest, group: int) -> bool {
    &&& after.request_id == before.request_id
    &&& after.cancel == before.cancel
    &&& after.plan == before.plan
    &&& after.next_group == group_after(before, group)
}

/// The first flag that makes a refusal pointless to deliver.
pub open spec fn first_guard(
    envelope: CommandEnvelope,
    device: Option<DeviceStatus>,
    source_request: Option<RequestOwner>,
    calibration_request: Option<RequestOwner>,
) -> Option<Token> {
    if device_worker::source_guard(envelope, device, source_request) is Some {
        device_worker::source_guard(envelope, device, source_request)
    } else {
        calibration_control::calibration_guard(envelope, device, calibration_request)
    }
}

/// Work that a command starts on the instrument answers to that command. A
/// calibration is not started while a source may be on.
pub proof fn law_started_work_has_an_owner(
    envelope: CommandEnvelope,
    cancelled: bool,
    before: Worker,
    writer_pending: bool,
    after: WorkerState,
    call: Option<DeviceCall>,
)
    requires
        device_worker::handled(envelope, cancelled, before.state, writer_pending, after, call),
    ensures
        (call matches Some(DeviceCall::StartSource(_))) ==> device_worker::source_owner(
            envelope,
            cancelled,
            before.state.identity,
            before.source_request,
        ) == Some(
            RequestOwner {
                identity: device_worker::sender(envelope),
                cancel: envelope.cancel,
            },
        ),
        (call matches Some(DeviceCall::StartCalibration(_)))
            && !before.state.device->0.source.possible()
            ==> calibration_control::calibration_owner(
            envelope,
            cancelled,
            before.state.identity,
            before.state.device,
            before.calibration_request,
        ) == Some(
            RequestOwner {
                identity: device_worker::sender(envelope),
                cancel: envelope.cancel,
            },
        ),
{
}

/// Groups take their turns in order: after the last comes the first again.
pub proof fn law_groups_take_turns(job: SweepRequest, group: int)
    requires
        0 <= group < job.plan.groups@.len(),
    ensures
        group + 1 < job.plan.groups@.len() ==> group_after(job, group) == group + 1,
        group + 1 == job.plan.groups@.len() ==> group_after(job, group) == 0,
{
    let count = job.plan.groups@.len() as int;
    if group + 1 < count {
        assert((group + 1) % count == group + 1) by (nonlinear_arith)
            requires
                0 <= group + 1 < count,
        ;
    } else {
        assert((group + 1) % count == 0) by (nonlinear_arith)
            requires
                group + 1 == count,
                count > 0,
        ;
    }
}

/// The worker measures only with an instrument, a job that acquires and no
/// recording under way, and waits otherwise.
pub proof fn law_workers_wait_without_work(worker: &Worker, waits: bool)
    requires
        call_ensures(Worker::waits, (worker,), waits),
    ensures
        !waits <==> worker.state.device is Some && worker.state.job is Some
            && worker.state.job->0.phase is Acquiring && worker.recording.pending is None,
{
}

/// A calibration under way is looked after first, under its own request, then a
/// source that was asked for, and else nothing. While a standard is to be
/// connected only the end of the program interrupts.
pub proof fn law_calibrations_are_polled_before_sources(worker: &Worker, poll: DevicePoll)
    requires
        worker.wf(),
        call_ensures(Worker::poll, (worker,), poll),
    ensures
        ({
            let device = worker.state.device;
            let calibrates = device is Some && device->0.calibration.active();
            let sends = device is Some && device->0.source.state is Requested;
            &&& calibrates <==> poll is Calibration
            &&& !calibrates && sends <==> poll is Source
            &&& !calibrates && !sends <==> poll is Nothing
            &&& poll matches DevicePoll::Calibration { owner, only_shutdown }
                ==> worker.calibration_request == Some(owner) && (only_shutdown <==>
                device->0.calibration.phase is Prompt)
            &&& poll matches DevicePoll::Source { owner } ==> worker.source_request == Some(owner)
        }),
{
}

/// A frame goes to the traces of its group under the conditions of that group,
/// as it was measured, and is addressed to the request that asked for it.
pub proof fn law_frames_go_to_their_group(
    worker: &Worker,
    cycle: &Cycle,
    data: SweepData,
    segments: Option<SegmentMetadata>,
    completed_at: u64,
    event: EventEnvelope,
)
    requires
        worker.state.job is Some,
        cycle.group < worker.state.job->0.plan.groups@.len(),
        call_ensures(Worker::delivery, (worker, cycle, data, segments, completed_at), event),
    ensures
        event.session_id == cycle.source.session_id,
        event.request_id == cycle.source.request_id,
        event.cycle_id == Some(cycle.cycle_id),
        event.event is SweepTrace,
        ({
            let delivery = event.event->SweepTrace_0;
            let group = worker.state.job->0.plan.groups@[cycle.group as int];
            &&& delivery.members@ == group.members@
            &&& delivery.snapshot.settings@ == group.settings@
            &&& delivery.snapshot.data == data
            &&& delivery.snapshot.segments == segments
            &&& delivery.snapshot.session_id == cycle.source.session_id
            &&& delivery.snapshot.completed_at == completed_at
        }),
{
}

/// Groups are acquired in turn under numbers that only grow. What is acquired is
/// the group whose turn it is, for the request of the job.
pub proof fn law_cycles_are_numbered(
    worker: &mut Worker,
    cancelled: bool,
    log: &mut Vec<Effect>,
    cycle: Option<Cycle>,
)
    requires
        old(worker).state.wf(),
        old(worker).cycle_id < u64::MAX,
        call_ensures(Worker::begin_cycle, (worker, cancelled, log), cycle),
    ensures
        cycle is Some <==> old(worker).state.device is Some && old(worker).state.job is Some
            && !cancelled,
        cycle matches Some(cycle) ==> cycle.cycle_id == old(worker).cycle_id + 1 && final(worker).cycle_id == cycle.cycle_id && cycle.group == old(worker).state.job->0.next_group
            && cycle.source.session_id == old(worker).state.identity.session_id
            && cycle.source.request_id == old(worker).state.job->0.request_id && cycle.cancel
            == old(worker).state.job->0.cancel,
        cycle is None ==> final(worker).cycle_id == old(worker).cycle_id,
        old(worker).state.device is Some && old(worker).state.job is Some && cancelled ==> final(worker).state.job is None && final(log)@ == old(log)@.push(
            Effect::Cancel(old(worker).state.job->0.cancel),
        ),
{
    assert(old(worker).state.job is Some ==> old(log)@ + device_worker::discarded(
        old(worker).state.job,
    ) =~= old(log)@.push(Effect::Cancel(old(worker).state.job->0.cancel)));
}

/// After a frame the next group has its turn, the first after the last, and then
/// a pass is closed: after its interval, or through the recorder. A recorded
/// pass holds the frame for every trace of every group.
pub proof fn law_frames_complete_a_pass(
    worker: &mut Worker,
    cycle: &Cycle,
    snapshot: &Arc<CompletedSweep>,
    cancelled: bool,
    clock: Clock,
    log: &mut Vec<Effect>,
    save: Option<SaveRequest>,
)
    requires
        old(worker).state.wf(),
        old(worker).state.job is Some,
        cycle.group == old(worker).state.job->0.next_group,
        call_ensures(Worker::delivered, (worker, cycle, snapshot, cancelled, clock, log), save),
    ensures
        ({
            let job = old(worker).state.job->0;
            let after = final(worker).state.job;
            let count = job.plan.groups@.len();
            let last = cycle.group + 1 == count;
            let members = job.plan.groups@[cycle.group as int].members@;
            let due = clock.now + job.plan.run.interval_ms * 1_000_000;
            let held = if save is Some {
                save->0.snapshots@
            } else {
                after->0.pass@
            };
            &&& cancelled ==> after is None && save is None
            &&& !cancelled && !last ==> after is Some && after->0.next_group == cycle.group + 1
                && after->0.pass_id == job.pass_id && after->0.phase == job.phase && save is None
            &&& !cancelled && last && after is Some ==> after->0.next_group == 0
            &&& !cancelled && last && !job.plan.run.recording.enabled && job.pass_id < u64::MAX && (
            job.plan.run.interval_ms == 0 || due <= clock.latest) ==> {
                &&& after is Some
                &&& after->0.pass_id == job.pass_id + 1
                &&& job.plan.run.interval_ms == 0 ==> after->0.phase is Acquiring
                &&& job.plan.run.interval_ms > 0 ==> (after->0.phase matches RunPhase::Waiting {
                    until,
                } && until - clock.now == job.plan.run.interval_ms * 1_000_000)
            }
            &&& save matches Some(save) ==> last && job.plan.run.recording.enabled
                && save.key.pass_id == job.pass_id && save.key.request_id == job.request_id
                && save.key.session_id == cycle.source.session_id
            &&& !cancelled && last && job.plan.run.recording.enabled && old(worker).recording.pending is None ==> save is Some
            &&& job.plan.run.recording.enabled && (save is Some || !cancelled && !last) ==> {
                &&& held.len() == job.pass@.len() + members.len()
                &&& forall|i: int| 0 <= i < job.pass@.len() ==> #[trigger] held[i] == job.pass@[i]
                &&& forall|i: int|
                    0 <= i < members.len() ==> #[trigger] held[job.pass@.len() + i] == (
                        members[i],
                        *snapshot,
                    )
            }
            &&& after is Some ==> after->0.plan == job.plan && after->0.request_id
                == job.request_id && after->0.cancel == job.cancel
        }),
{
    let job = old(worker).state.job->0;
    law_groups_take_turns(job, cycle.group as int);
}

/// A job that was cancelled is dropped and its flag raised. A pause ends when
/// its moment has come or the recorder is done, and the worker acquires only
/// where neither a pause nor a recording is under way.
pub proof fn law_pauses_are_ended_once(
    worker: &mut Worker,
    cancelled: bool,
    now: u128,
    log: &mut Vec<Effect>,
    ready: bool,
)
    requires
        old(worker).state.wf(),
        call_ensures(Worker::settle, (worker, cancelled, now, log), ready),
    ensures
        ({
            let before = old(worker).state.job;
            let after = final(worker).state.job;
            let writes = old(worker).recording.pending is Some;
            &&& before is Some && cancelled ==> after is None && final(log)@ == old(log)@.push(
                Effect::Cancel(before->0.cancel),
            )
            &&& before is Some && !cancelled && before->0.phase is Acquiring ==> after == before
            &&& before is Some && !cancelled && writes ==> after == before
            &&& before is Some && !cancelled && !writes && before->0.phase is Saving
                ==> after is Some && after->0.phase is Acquiring
            &&& before is Some && !cancelled && !writes && (before->0.phase matches RunPhase::Waiting {
                until,
            } && now >= until) ==> after is Some && after->0.phase is Acquiring
            &&& before is Some && !cancelled && (before->0.phase matches RunPhase::Waiting {
                until,
            } && now < until) ==> after == before
            &&& writes ==> !ready
            &&& ready && after is Some ==> after->0.phase is Acquiring
            &&& !writes && (after is None || after->0.phase is Acquiring) ==> ready
        }),
{
    assert(old(worker).state.job is Some ==> old(log)@ + device_worker::discarded(
        old(worker).state.job,
    ) =~= old(log)@.push(Effect::Cancel(old(worker).state.job->0.cancel)));
}

/// Rows of a frame under way are shown at its beginning, at the beginning of a
/// segment and then at most twenty times a second, but never for a request that
/// is over.
pub proof fn law_previews_are_wanted_now_and_then(
    cancelled: bool,
    shutdown: bool,
    last: Option<u128>,
    rows: usize,
    segment_rows: Option<u32>,
    now: u128,
    wanted: bool,
)
    requires
        call_ensures(
            Worker::preview_wanted,
            (cancelled, shutdown, last, rows, segment_rows, now),
            wanted,
        ),
    ensures
        cancelled || shutdown ==> !wanted,
        !cancelled && !shutdown && (rows == 0 || segment_rows == Some(0u32) || last is None)
            ==> wanted,
        wanted && rows > 0 && segment_rows != Some(0u32) && last is Some ==> now - last->0
            >= 50_000_000,
        !cancelled && !shutdown && last is Some && now - last->0 >= 50_000_000 ==> wanted,
{
}

/// Leaving the loop drops the job before the instrument is released.
pub proof fn law_workers_leave_in_order(worker: &mut Worker, log: &mut Vec<Effect>)
    requires
        call_ensures(Worker::shut_down, (worker, log), ()),
    ensures
        final(worker).state.job is None,
        final(worker).state.device is None,
        ({
            let before = old(log)@.len() as int;
            let after = final(log)@;
            let jobless = if old(worker).state.job is Some {
                before + 1
            } else {
                before
            };
            &&& old(worker).state.job is Some ==> after[before] == Effect::Cancel(
                old(worker).state.job->0.cancel,
            )
            &&& old(worker).state.device is Some ==> after.len() == jobless + 1
                && after[jobless] is Close
            &&& old(worker).state.device is None ==> after.len() == jobless
        }),
{
}

/// A failed poll of a calibration or a source releases the instrument before
/// anything is told, then tells how it was left and that the link is lost.
pub proof fn law_failed_polls_release_first(
    worker: &mut Worker,
    owner: RequestOwner,
    error: DeviceError,
    status: DeviceStatus,
    log: &mut Vec<Effect>,
    other: &mut Worker,
    second: &mut Vec<Effect>,
)
    requires
        old(worker).state.wf() && old(worker).state.device is Some,
        old(other).state.wf() && old(other).state.device is Some,
        call_ensures(
            Worker::calibration_polled,
            (worker, owner, Err::<CalibrationReport, DeviceError>(error), status, log),
            (),
        ),
        call_ensures(
            Worker::source_polled,
            (other, owner, Err::<SourceReport, DeviceError>(error), status, second),
            (),
        ),
    ensures
        final(worker).state.device is None && final(worker).state.job is None,
        final(other).state.device is None && final(other).state.job is None,
        final(log)@[old(log)@.len() as int] is Close,
        final(second)@[old(second)@.len() as int] is Close,
        final(log)@.last() == Effect::Emit(
            owner.identity.envelope(
                WorkerEvent::ConnectionLost(
                    Message::Failure { context: Context::Calibration, error },
                ),
            ),
        ),
        final(second)@.last() == Effect::Emit(
            owner.identity.envelope(
                WorkerEvent::ConnectionLost(Message::Failure { context: Context::Source, error }),
            ),
        ),
{
}

/// A command's answer goes to the request that sent it, under its own flag. A
/// request to shut down is left to the loop.
pub proof fn law_answers_go_to_their_request(
    worker: &mut Worker,
    envelope: CommandEnvelope,
    cancelled: bool,
    log: &mut Vec<Effect>,
    step: Option<HandledCommand>,
)
    requires
        old(worker).state.wf(),
        envelope.is_checked(),
        call_ensures(Worker::on_command, (worker, envelope, cancelled, log), step),
    ensures
        envelope.command is Shutdown <==> step is None,
        envelope.command is Shutdown ==> *final(worker) == *old(worker) && final(log)@ == old(log)@,
        step is Some ==> step->0.source.session_id == envelope.session_id
            && step->0.source.request_id == envelope.request_id && step->0.cancel
            == envelope.cancel,
        envelope.command is RefreshStatus ==> step->0.call is None && final(worker).state == old(worker).state && final(log)@ == old(log)@,
        envelope.command is RefreshStatus && envelope.session_id == old(worker).state.identity.session_id ==> final(worker).pending_status == Some(envelope),
        envelope.command is StartSource && envelope.checks.devices@[0] is None
            && envelope.session_id == old(worker).state.identity.session_id && envelope.request_id
            >= old(worker).state.identity.request_id && !cancelled ==> final(worker).source_request is Some && final(worker).source_request->0.cancel == envelope.cancel,
        !(envelope.command is StartSource) ==> final(worker).source_request == old(worker).source_request,
        step is Some && step->0.guard is Some ==> final(worker).source_request is Some
            && step->0.guard->0 == final(worker).source_request->0.cancel || final(worker).calibration_request is Some && step->0.guard->0 == final(worker).calibration_request->0.cancel,
        step is Some && old(worker).state.device is None ==> step->0.guard is None,
        final(worker).recording == old(worker).recording,
        final(worker).cycle_id == old(worker).cycle_id,
{
}

/// A query that waited is taken once and answered to its own request.
pub proof fn law_waiting_queries_are_taken_once(
    worker: &mut Worker,
    cancelled: bool,
    log: &mut Vec<Effect>,
    step: Option<HandledCommand>,
)
    requires
        old(worker).state.wf(),
        old(worker).keeps_current_status(),
        call_ensures(Worker::take_status, (worker, cancelled, log), step),
    ensures
        final(worker).pending_status is None,
        step is Some <==> old(worker).pending_status is Some,
        step is None ==> final(worker).state == old(worker).state && final(log)@ == old(log)@,
        step is Some ==> step->0.source.session_id == old(worker).pending_status->0.session_id
            && step->0.source.request_id == old(worker).pending_status->0.request_id
            && step->0.cancel == old(worker).pending_status->0.cancel,
        step is Some && old(worker).state.device is Some && old(worker).pending_status->0.command is RefreshStatus && old(worker).pending_status->0.session_id
            == old(worker).state.identity.session_id && !old(worker).state.device->0.calibration.active() && !old(worker).state.device->0.source.possible()
            ==> step->0.call == Some(DeviceCall::Status) && final(worker).state == old(worker).state,
        final(worker).source_request == old(worker).source_request,
{
}

/// A pass that the recorder took is pending, and the run saves. One that it
/// refused ends the run with its words.
pub proof fn law_refused_passes_end_the_run(
    worker: &mut Worker,
    key: RecordKey,
    accepted: Result<(), String>,
    cycle: &Cycle,
    log: &mut Vec<Effect>,
)
    requires
        old(worker).state.wf(),
        old(worker).state.job is Some,
        call_ensures(Worker::pass_submitted, (worker, key, accepted, cycle, log), ()),
    ensures
        accepted is Ok ==> final(worker).recording.pending == Some(key) && final(worker).state.job is Some && final(worker).state.job->0.phase is Saving && final(worker).state.job->0.plan == old(worker).state.job->0.plan && final(worker).state.job->0.pass_id
            == old(worker).state.job->0.pass_id && final(worker).state.job->0.next_group == old(worker).state.job->0.next_group,
        accepted is Ok && cycle.phase is Saving ==> final(log)@ == old(log)@,
        accepted is Ok && !(cycle.phase is Saving) ==> final(log)@.len() == old(log)@.len() + 1
            && device_worker::tells(
            final(log)@.last(),
            cycle.source,
            WorkerEvent::RunProgress(RunProgress::Saving),
        ),
        accepted is Err ==> final(worker).state.job is None && final(worker).recording.pending
            == old(worker).recording.pending && final(log)@.len() == old(log)@.len() + 2 && final(log)@[old(log)@.len() as int] == Effect::Cancel(old(worker).state.job->0.cancel)
            && device_worker::tells(
            final(log)@.last(),
            cycle.source,
            WorkerEvent::Error(Message::Recording(PassError::Recorder(accepted->Err_0))),
        ),
        final(worker).state.device == old(worker).state.device,
{
}

/// A sweep that failed ends the run. The link stays unless it failed itself, and
/// the failure is told to the run's request.
pub proof fn law_failed_sweeps_end_the_run(
    worker: &mut Worker,
    cycle: &Cycle,
    error: DeviceError,
    log: &mut Vec<Effect>,
)
    requires
        call_ensures(Worker::acquisition_failed, (worker, cycle, error, log), ()),
    ensures
        ({
            let device = old(worker).state.device;
            let lost = error is Io || error is NotConnected || error is Timeout || error is Protocol
                || device is Some && device->0.requires_reconnect;
            &&& final(worker).state.job is None
            &&& lost ==> final(worker).state.device is None && device_worker::tells(
                final(log)@.last(),
                cycle.source,
                WorkerEvent::ConnectionLost(Message::Failure { context: Context::Sweep, error }),
            )
            &&& !lost ==> final(worker).state.device == device
            &&& !lost && !(error is Cancelled) ==> device_worker::tells(
                final(log)@.last(),
                cycle.source,
                WorkerEvent::Error(Message::Failure { context: Context::Sweep, error }),
            )
            &&& final(worker).recording == old(worker).recording
        }),
{
}

/// A refusal is guarded by the flag of the running source, where it leaves one
/// alone, and by that of the calibration only otherwise.
pub proof fn law_sources_guard_before_calibrations(
    worker: &mut Worker,
    envelope: CommandEnvelope,
    cancelled: bool,
    log: &mut Vec<Effect>,
    step: Option<HandledCommand>,
    by_source: Option<Token>,
)
    requires
        old(worker).state.wf(),
        envelope.is_checked(),
        !(envelope.command is Shutdown),
        call_ensures(Worker::on_command, (worker, envelope, cancelled, log), step),
        call_ensures(
            device_worker::source_rejection_guard,
            (&envelope, &old(worker).state.device, &final(worker).source_request),
            by_source,
        ),
    ensures
        by_source is Some ==> step->0.guard == by_source,
        by_source is None && step->0.guard is Some ==> final(worker).calibration_request is Some
            && step->0.guard->0 == final(worker).calibration_request->0.cancel,
{
}

} // verus!
