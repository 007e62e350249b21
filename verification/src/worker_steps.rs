//! The order of the worker's loop: what comes next after each event.

use vstd::prelude::*;

use crate::calibration_control;
use crate::worker_loop::{DevicePoll, Worker};

verus! {

/// What the worker's thread does next.
#[derive(Debug, Clone, Copy, PartialEq, Eq, Structural)]
pub enum LoopStep {
    /// Wait a while for a command.
    Wait,
    /// Take a command that is there already.
    TakeCommand,
    HandleCommand,
    AnswerStatus,
    /// Poll a calibration or a source that is under way.
    Poll(DevicePoll),
    /// Ask whether the recorder has an answer.
    AskRecorder,
    /// Drop a cancelled job, and end a pause that is over.
    Settle,
    /// Acquire the next group, if there is one.
    Acquire,
    /// Leave the loop.
    Leave,
}

/// What came of the last step.
#[derive(Debug, Clone, Copy, PartialEq, Eq, Structural)]
pub enum LoopEvent {
    /// Nothing was done yet.
    Started,
    /// No command came while the worker waited.
    WaitOver,
    /// A command came, while the worker waited or because it looked.
    Arrived { waited: bool },
    QueueEmpty,
    /// Nobody can send commands any more.
    QueueClosed,
    /// A command was handled. `ends` is whether it asks to shut down.
    Handled { ends: bool },
    StatusAnswered,
    InstrumentPolled,
    RecorderAnswered,
    RecorderSilent,
    /// The job was looked after. `ready` is whether the worker may acquire.
    Settled { ready: bool },
    Acquired,
}

/// Whether an event can come of a step.
pub open spec fn answers(step: LoopStep, event: LoopEvent) -> bool {
    match step {
        LoopStep::Wait => event is WaitOver || event == (LoopEvent::Arrived { waited: true })
            || event is QueueClosed,
        LoopStep::TakeCommand => event == (LoopEvent::Arrived { waited: false })
            || event is QueueEmpty || event is QueueClosed,
        LoopStep::HandleCommand => event is Handled,
        LoopStep::AnswerStatus => event is StatusAnswered,
        LoopStep::Poll(_) => event is InstrumentPolled,
        LoopStep::AskRecorder => event is RecorderAnswered || event is RecorderSilent,
        LoopStep::Settle => event is Settled,
        LoopStep::Acquire => event is Acquired,
        LoopStep::Leave => false,
    }
}

/// Whether the instrument is busy with neither a calibration nor a source.
pub open spec fn instrument_idle(worker: Worker) -> bool {
    !calibration_control::calibration_active(worker.state.device) && !(worker.state.device is Some
        && worker.state.device->0.source.requested())
}

/// The first step of a round.
pub open spec fn first_step(worker: Worker, shutdown: bool) -> LoopStep {
    if shutdown {
        LoopStep::Leave
    } else if worker.idles() {
        LoopStep::Wait
    } else {
        LoopStep::TakeCommand
    }
}

/// The step once commands and status queries are dealt with: what the instrument
/// is doing goes before the recorder.
pub open spec fn work_step(worker: Worker, shutdown: bool) -> LoopStep {
    if shutdown {
        LoopStep::Leave
    } else if instrument_idle(worker) {
        LoopStep::AskRecorder
    } else {
        LoopStep::Poll(worker.due_poll())
    }
}

/// The step that follows an event.
pub open spec fn step_after(worker: Worker, last: LoopEvent, shutdown: bool) -> LoopStep {
    match last {
        LoopEvent::QueueClosed => LoopStep::Leave,
        LoopEvent::Handled { ends } => if ends || shutdown {
            LoopStep::Leave
        } else {
            LoopStep::TakeCommand
        },
        LoopEvent::WaitOver => if shutdown {
            LoopStep::Leave
        } else {
            LoopStep::TakeCommand
        },
        LoopEvent::Arrived { waited } => if waited && shutdown {
            LoopStep::Leave
        } else {
            LoopStep::HandleCommand
        },
        LoopEvent::QueueEmpty => if worker.pending_status is Some {
            LoopStep::AnswerStatus
        } else {
            work_step(worker, shutdown)
        },
        LoopEvent::StatusAnswered => work_step(worker, shutdown),
        LoopEvent::RecorderSilent => LoopStep::Settle,
        LoopEvent::Settled { ready } => if !ready {
            first_step(worker, shutdown)
        } else if shutdown {
            LoopStep::Leave
        } else {
            LoopStep::Acquire
        },
        LoopEvent::Started => first_step(worker, shutdown),
        LoopEvent::InstrumentPolled => first_step(worker, shutdown),
        LoopEvent::RecorderAnswered => first_step(worker, shutdown),
        LoopEvent::Acquired => first_step(worker, shutdown),
    }
}

fn begin_round(worker: &Worker, shutdown: bool) -> (step: LoopStep)
    ensures
        step == first_step(*worker, shutdown),
{
    if shutdown {
        LoopStep::Leave
    } else if worker.waits() {
        LoopStep::Wait
    } else {
        LoopStep::TakeCommand
    }
}

fn begin_work(worker: &Worker, shutdown: bool) -> (step: LoopStep)
    requires
        worker.wf(),
    ensures
        step == work_step(*worker, shutdown),
{
    if shutdown {
        return LoopStep::Leave;
    }
    match worker.poll() {
        DevicePoll::Nothing => LoopStep::AskRecorder,
        due => LoopStep::Poll(due),
    }
}

/// Decide what the worker does next. `shutdown` tells whether the worker's own
/// flag is up.
pub fn next_step(worker: &Worker, last: LoopEvent, shutdown: bool) -> (step: LoopStep)
    requires
        last is QueueEmpty || last is StatusAnswered ==> worker.wf(),
    ensures
        step == step_after(*worker, last, shutdown),
{
    match last {
        LoopEvent::QueueClosed => LoopStep::Leave,
        LoopEvent::Handled { ends } => {
            if ends || shutdown {
                LoopStep::Leave
            } else {
                LoopStep::TakeCommand
            }
        },
        LoopEvent::WaitOver => {
            if shutdown {
                LoopStep::Leave
            } else {
                LoopStep::TakeCommand
            }
        },
        LoopEvent::Arrived { waited } => {
            if waited && shutdown {
                LoopStep::Leave
            } else {
                LoopStep::HandleCommand
            }
        },
        LoopEvent::QueueEmpty => {
            if worker.pending_status.is_some() {
                LoopStep::AnswerStatus
            } else {
                begin_work(worker, shutdown)
            }
        },
        LoopEvent::StatusAnswered => begin_work(worker, shutdown),
        LoopEvent::RecorderSilent => LoopStep::Settle,
        LoopEvent::Settled { ready } => {
            if !ready {
                begin_round(worker, shutdown)
            } else if shutdown {
                LoopStep::Leave
            } else {
                LoopStep::Acquire
            }
        },
        LoopEvent::Started => begin_round(worker, shutdown),
        LoopEvent::InstrumentPolled => begin_round(worker, shutdown),
        LoopEvent::RecorderAnswered => begin_round(worker, shutdown),
        LoopEvent::Acquired => begin_round(worker, shutdown),
    }
}

/// A step, what came of it, and the worker and its flag afterwards.
#[derive(Debug)]
pub struct LoopTurn {
    pub step: LoopStep,
    pub event: LoopEvent,
    pub worker: Worker,
    pub shutdown: bool,
}

/// Whether the loop runs through these turns, from the beginning of a round.
pub open spec fn is_run(turns: Seq<LoopTurn>) -> bool {
    &&& turns.len() > 0 ==> turns[0].step is Wait || turns[0].step is TakeCommand
    &&& forall|i: int| 0 <= i < turns.len() ==> answers((#[trigger] turns[i]).step, turns[i].event)
    &&& forall|i: int, j: int|
        0 <= i < j < turns.len() && j == i + 1 ==> (#[trigger] turns[j]).step == step_after(
            (#[trigger] turns[i]).worker,
            turns[i].event,
            turns[i].shutdown,
        )
}

/// Whether the turn before `index` ends a search for commands: none is left, and
/// the status query that waited, if any, was answered since.
pub open spec fn commands_done(turns: Seq<LoopTurn>, index: int) -> bool {
    ||| index >= 1 && turns[index - 1].event is QueueEmpty && turns[index - 1].worker.pending_status is None
    ||| index >= 2 && turns[index - 1].event is StatusAnswered && turns[index - 2].event is QueueEmpty
}

/// Commands go first, then a status query, then a calibration, then a source,
/// then the recorder, and the next group comes last. So no group is acquired
/// while a command or a status query waits, while the instrument is busy, or
/// before the recorder was asked.
pub proof fn law_groups_come_last(turns: Seq<LoopTurn>, index: int)
    requires
        is_run(turns),
        0 <= index < turns.len(),
    ensures
        turns[index].step is AnswerStatus ==> index >= 1 && turns[index - 1].event is QueueEmpty
            && turns[index - 1].worker.pending_status is Some,
        turns[index].step matches LoopStep::Poll(poll) ==> commands_done(turns, index) && poll
            == turns[index - 1].worker.due_poll(),
        turns[index].step is AskRecorder ==> commands_done(turns, index) && instrument_idle(
            turns[index - 1].worker,
        ),
        turns[index].step is Settle ==> index >= 1 && turns[index - 1].event is RecorderSilent
            && commands_done(turns, index - 1) && instrument_idle(turns[index - 2].worker),
        turns[index].step is Acquire ==> index >= 2 && turns[index - 1].event == (
        LoopEvent::Settled { ready: true }) && turns[index - 2].event is RecorderSilent
            && commands_done(turns, index - 2) && instrument_idle(turns[index - 3].worker),
{
    if index >= 1 {
        lemma_turn(turns, index);
        if index >= 2 {
            lemma_turn(turns, index - 1);
        }
        if index >= 3 {
            lemma_turn(turns, index - 2);
        }
        if index >= 4 {
            lemma_turn(turns, index - 3);
        }
    }
}

proof fn lemma_turn(turns: Seq<LoopTurn>, index: int)
    requires
        is_run(turns),
        1 <= index < turns.len(),
    ensures
        turns[index].step == step_after(
            turns[index - 1].worker,
            turns[index - 1].event,
            turns[index - 1].shutdown,
        ),
        answers(turns[index].step, turns[index].event),
        answers(turns[index - 1].step, turns[index - 1].event),
{
}

/// The loop is left only where the worker is to shut down: its flag is up, a
/// command asks for it, or nobody can send commands any more. And where its flag
/// is up, no new round begins.
pub proof fn law_the_loop_ends_on_request(worker: Worker, last: LoopEvent, shutdown: bool)
    ensures
        step_after(worker, last, shutdown) is Leave ==> shutdown || last is QueueClosed || last == (
        LoopEvent::Handled { ends: true }),
        shutdown ==> !(step_after(worker, last, shutdown) is Wait) && !(step_after(
            worker,
            last,
            shutdown,
        ) is TakeCommand) && !(step_after(worker, last, shutdown) is Acquire),
{
}

/// What follows each event, while nobody asks the worker to end: a round begins
/// by waiting where there is nothing to measure, commands are taken until none
/// is left, then a status query is answered, the instrument looked after, the
/// recorder asked, the job settled and the next group acquired.
pub proof fn law_rounds_go_in_order(worker: &Worker, last: LoopEvent, step: LoopStep)
    requires
        worker.wf(),
        call_ensures(next_step, (worker, last, false), step),
    ensures
        ({
            let free = worker.state.device is Some && worker.state.job is Some
                && worker.state.job->0.phase is Acquiring && worker.recording.pending is None;
            let busy = worker.state.device is Some && (worker.state.device->0.calibration.active()
                || worker.state.device->0.source.state is Requested);
            let begins = last is Started || last is InstrumentPolled || last is RecorderAnswered
                || last is Acquired || last == (LoopEvent::Settled { ready: false });
            &&& begins && !free ==> step is Wait
            &&& begins && free ==> step is TakeCommand
            &&& last is WaitOver ==> step is TakeCommand
            &&& last is Arrived ==> step is HandleCommand
            &&& last == (LoopEvent::Handled { ends: false }) ==> step is TakeCommand
            &&& last == (LoopEvent::Handled { ends: true }) ==> step is Leave
            &&& last is QueueClosed ==> step is Leave
            &&& last is QueueEmpty && worker.pending_status is Some ==> step is AnswerStatus
            &&& last is QueueEmpty && worker.pending_status is None && busy ==> step is Poll
            &&& last is QueueEmpty && worker.pending_status is None && !busy ==> step is AskRecorder
            &&& last is StatusAnswered && busy ==> step is Poll
            &&& last is StatusAnswered && !busy ==> step is AskRecorder
            &&& last is RecorderSilent ==> step is Settle
            &&& last == (LoopEvent::Settled { ready: true }) ==> step is Acquire
        }),
{
}

/// Where the worker is asked to end, it leaves at the next point where a round
/// could go on. What has arrived while it looked is still handled, and a job is
/// still settled.
pub proof fn law_requests_to_end_are_heard(worker: &Worker, last: LoopEvent, step: LoopStep)
    requires
        worker.wf(),
        call_ensures(next_step, (worker, last, true), step),
        !(last == (LoopEvent::Arrived { waited: false })),
        !(last is RecorderSilent),
        !(last is QueueEmpty && worker.pending_status is Some),
    ensures
        step is Leave,
{
}

} // verus!
