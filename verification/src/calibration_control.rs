//! Who owns a running calibration, and what it keeps out.

use vstd::prelude::*;

use crate::device_worker;
use crate::device_worker::{Effect, RequestOwner, WorkerIdentity};
use crate::messages::{CommandEnvelope, Message, Token, WorkerCommand, WorkerEvent};
use crate::model::{CalibrationPhase, DeviceStatus};

verus! {

/// Whether a calibration is under way.
pub open spec fn calibration_active(device: Option<DeviceStatus>) -> bool {
    device is Some && device->0.calibration.active()
}

/// Whether a calibration takes up this command as its new owner's.
pub open spec fn takes_over(envelope: CommandEnvelope, device: DeviceStatus) -> bool {
    match envelope.command {
        WorkerCommand::StartCalibration(_) => envelope.checks.device(0) is None
            && !device.calibration.active() && !device.source.possible(),
        WorkerCommand::AdvanceCalibration(prompt) => device.calibration.phase
            == CalibrationPhase::Prompt(prompt),
        WorkerCommand::CancelCalibration => device.calibration.active(),
        _ => false,
    }
}

/// Whom a calibration answers to after a command.
pub open spec fn calibration_owner(
    envelope: CommandEnvelope,
    cancelled: bool,
    identity: WorkerIdentity,
    device: Option<DeviceStatus>,
    owner: Option<RequestOwner>,
) -> Option<RequestOwner> {
    if envelope.session_id == identity.session_id && envelope.request_id >= identity.request_id
        && !cancelled && device is Some && takes_over(envelope, device->0) {
        Some(RequestOwner { identity: device_worker::sender(envelope), cancel: envelope.cancel })
    } else {
        owner
    }
}

/// Remember whom the calibration answers to.
pub fn track_request(
    envelope: &CommandEnvelope,
    cancelled: bool,
    identity: WorkerIdentity,
    device: &Option<DeviceStatus>,
    owner: &mut Option<RequestOwner>,
)
    requires
        envelope.is_checked(),
    ensures
        *final(owner) == calibration_owner(*envelope, cancelled, identity, *device, *old(owner)),
{
    if envelope.session_id != identity.session_id || envelope.request_id < identity.request_id
        || cancelled {
        return;
    }
    let Some(status) = device else {
        return;
    };
    let accepted = match &envelope.command {
        WorkerCommand::StartCalibration(_) => {
            envelope.checks.device_accepts(0) && !status.calibration.is_active()
                && !status.source.is_possible()
        },
        WorkerCommand::AdvanceCalibration(prompt) => {
            status.calibration.phase == CalibrationPhase::Prompt(*prompt)
        },
        WorkerCommand::CancelCalibration => status.calibration.is_active(),
        _ => false,
    };
    if accepted {
        *owner = Some(
            RequestOwner {
                identity: WorkerIdentity {
                    session_id: envelope.session_id,
                    request_id: envelope.request_id,
                },
                cancel: envelope.cancel,
            },
        );
    }
}

/// Whether a running calibration lets this command through.
pub open spec fn proceeds(command: WorkerCommand, device: DeviceStatus) -> bool {
    match command {
        WorkerCommand::Connect { .. } => true,
        WorkerCommand::Disconnect | WorkerCommand::Shutdown | WorkerCommand::CancelCalibration
        => true,
        WorkerCommand::AdvanceCalibration(prompt) => device.calibration.phase
            == CalibrationPhase::Prompt(prompt),
        _ => false,
    }
}

/// The flag of a running calibration's owner, for a command that it refuses.
pub open spec fn calibration_guard(
    envelope: CommandEnvelope,
    device: Option<DeviceStatus>,
    owner: Option<RequestOwner>,
) -> Option<Token> {
    if calibration_active(device) && !proceeds(envelope.command, device->0) && owner is Some {
        Some(owner->0.cancel)
    } else {
        None
    }
}

/// The flag that makes a refusal of this command pointless to deliver.
pub fn rejection_guard(
    envelope: &CommandEnvelope,
    device: &Option<DeviceStatus>,
    owner: &Option<RequestOwner>,
) -> (guard: Option<Token>)
    ensures
        guard == calibration_guard(*envelope, *device, *owner),
{
    let Some(status) = device else {
        return None;
    };
    if !status.calibration.is_active() {
        return None;
    }
    let may_proceed = match &envelope.command {
        WorkerCommand::Connect { .. } => true,
        WorkerCommand::Disconnect | WorkerCommand::Shutdown | WorkerCommand::CancelCalibration
        => true,
        WorkerCommand::AdvanceCalibration(prompt) => {
            status.calibration.phase == CalibrationPhase::Prompt(*prompt)
        },
        _ => false,
    };
    if may_proceed {
        None
    } else {
        match owner {
            Some(owner) => Some(owner.cancel),
            None => None,
        }
    }
}

/// Whether a running calibration refuses this command.
pub open spec fn blocked(command: WorkerCommand, device: Option<DeviceStatus>) -> bool {
    calibration_active(device) && !(command is Connect || command is Disconnect
        || command is Shutdown || command is AdvanceCalibration || command is CancelCalibration)
}

/// How a refused command is answered.
pub open spec fn rejection_effects(
    command: WorkerCommand,
    device: Option<DeviceStatus>,
    source: WorkerIdentity,
) -> Seq<Effect> {
    if command is RefreshStatus {
        device_worker::emitted(source, WorkerEvent::StatusFailed(Message::CalibrationActive))
    } else {
        device_worker::emitted(source, WorkerEvent::CalibrationReport(device->0.calibration)) + device_worker::emitted(
            source,
            WorkerEvent::Error(Message::CalibrationActive),
        )
    }
}

/// Refuse a command that would disturb a running calibration.
pub fn reject_while_active(
    command: &WorkerCommand,
    device: &Option<DeviceStatus>,
    source: WorkerIdentity,
    log: &mut Vec<Effect>,
) -> (rejected: bool)
    ensures
        rejected == blocked(*command, *device),
        final(log)@ == if rejected {
            old(log)@ + rejection_effects(*command, *device, source)
        } else {
            old(log)@
        },
{
    let Some(status) = device else {
        return false;
    };
    if !status.calibration.is_active() {
        return false;
    }
    match command {
        WorkerCommand::Connect { .. } => {
            return false;
        },
        WorkerCommand::Disconnect
        | WorkerCommand::Shutdown
        | WorkerCommand::AdvanceCalibration(_)
        | WorkerCommand::CancelCalibration => {
            return false;
        },
        WorkerCommand::RefreshStatus => {
            log.push(
                Effect::Emit(source.event(WorkerEvent::StatusFailed(Message::CalibrationActive))),
            );
        },
        _ => {
            log.push(
                Effect::Emit(source.event(WorkerEvent::CalibrationReport(status.calibration))),
            );
            log.push(Effect::Emit(source.event(WorkerEvent::Error(Message::CalibrationActive))));
        },
    }
    assert(log@ =~= old(log)@ + rejection_effects(*command, *device, source));
    true
}

/// What a running calibration keeps out: everything but its own steps and the
/// beginning or the end of a session. An idle instrument keeps nothing out.
pub proof fn law_running_calibrations_keep_others_out(
    command: &WorkerCommand,
    device: &Option<DeviceStatus>,
    source: WorkerIdentity,
    log: &mut Vec<Effect>,
    rejected: bool,
)
    requires
        call_ensures(reject_while_active, (command, device, source, log), rejected),
    ensures
        rejected <==> *device is Some && (*device)->0.calibration.active() && (
        *command is RunWorkspace || *command is StopSweep || *command is StartSource
            || *command is StopSource || *command is StartCalibration
            || *command is RefreshStatus),
        !rejected ==> final(log)@ == old(log)@,
        rejected && *command is RefreshStatus ==> final(log)@ == old(log)@.push(
            Effect::Emit(source.envelope(WorkerEvent::StatusFailed(Message::CalibrationActive))),
        ),
        rejected && !(*command is RefreshStatus) ==> final(log)@ == old(log)@.push(
            Effect::Emit(
                source.envelope(WorkerEvent::CalibrationReport((*device)->0.calibration)),
            ),
        ).push(Effect::Emit(source.envelope(WorkerEvent::Error(Message::CalibrationActive)))),
{
    assert(final(log)@ =~= if !rejected {
        old(log)@
    } else if *command is RefreshStatus {
        old(log)@.push(
            Effect::Emit(source.envelope(WorkerEvent::StatusFailed(Message::CalibrationActive))),
        )
    } else {
        old(log)@.push(
            Effect::Emit(
                source.envelope(WorkerEvent::CalibrationReport((*device)->0.calibration)),
            ),
        ).push(Effect::Emit(source.envelope(WorkerEvent::Error(Message::CalibrationActive))))
    });
}

/// Whom a calibration answers to: the request that starts it, confirms the
/// standard that is asked for, or cancels it, while that request is of the
/// present. Any other command leaves the owner alone.
pub proof fn law_calibrations_answer_to_their_request(
    envelope: &CommandEnvelope,
    cancelled: bool,
    identity: WorkerIdentity,
    device: &Option<DeviceStatus>,
    owner: &mut Option<RequestOwner>,
)
    requires
        envelope.is_checked(),
        call_ensures(track_request, (envelope, cancelled, identity, device, owner), ()),
    ensures
        ({
            let present = envelope.session_id == identity.session_id && envelope.request_id
                >= identity.request_id && !cancelled && *device is Some;
            let own = RequestOwner {
                identity: WorkerIdentity {
                    session_id: envelope.session_id,
                    request_id: envelope.request_id,
                },
                cancel: envelope.cancel,
            };
            let status = (*device)->0;
            &&& !present ==> *final(owner) == *old(owner)
            &&& present && envelope.command is StartCalibration && envelope.checks.devices@[0] is None
                && !status.calibration.active() && !status.source.possible() ==> *final(owner)
                == Some(own)
            &&& envelope.command is StartCalibration && *device is Some && (
            status.calibration.active() || status.source.possible()
                || envelope.checks.devices@[0] is Some) ==> *final(owner) == *old(owner)
            &&& present && (envelope.command matches WorkerCommand::AdvanceCalibration(prompt)
                && status.calibration.phase == CalibrationPhase::Prompt(prompt)) ==> *final(owner)
                == Some(own)
            &&& (envelope.command matches WorkerCommand::AdvanceCalibration(prompt) && *device is Some
                && status.calibration.phase != CalibrationPhase::Prompt(prompt)) ==> *final(owner)
                == *old(owner)
            &&& present && envelope.command is CancelCalibration && status.calibration.active()
                ==> *final(owner) == Some(own)
            &&& !(envelope.command is StartCalibration) && !(envelope.command is AdvanceCalibration)
                && !(envelope.command is CancelCalibration) ==> *final(owner) == *old(owner)
        }),
{
}

/// A refusal by a running calibration is guarded by the flag of its owner. What
/// gets through is not guarded.
pub proof fn law_refusals_are_guarded(
    envelope: &CommandEnvelope,
    device: &Option<DeviceStatus>,
    owner: &Option<RequestOwner>,
    guard: Option<Token>,
)
    requires
        call_ensures(rejection_guard, (envelope, device, owner), guard),
    ensures
        guard matches Some(token) ==> *owner is Some && (*owner)->0.cancel == token && *device is Some
            && (*device)->0.calibration.active(),
        envelope.command is Connect || envelope.command is Disconnect
            || envelope.command is Shutdown || envelope.command is CancelCalibration
            ==> guard is None,
        *device is Some && (*device)->0.calibration.active() && *owner is Some && (
        envelope.command is RunWorkspace || envelope.command is StopSweep
            || envelope.command is StartSource || envelope.command is StopSource
            || envelope.command is StartCalibration || envelope.command is RefreshStatus)
            ==> guard is Some,
        *device is Some && (*device)->0.calibration.active() && *owner is Some && (
        envelope.command matches WorkerCommand::AdvanceCalibration(prompt)) ==> (guard is None <==> (
        *device)->0.calibration.phase == CalibrationPhase::Prompt(
            envelope.command->AdvanceCalibration_0,
        )),
{
}

} // verus!
