//! Fields of a connection target. Showing them never looks up ports.

use vstd::prelude::*;

use crate::device_lookup::{Lookup, SerialPortInfo};
use crate::model::ConnectionTarget;
use crate::text;
use crate::text::{trim, Caption, Language, Text};

verus! {

pub open spec fn kind_key(target: ConnectionTarget) -> Text {
    match target {
        ConnectionTarget::Tcp { .. } => Text::Network,
        ConnectionTarget::Serial { .. } => Text::Serial,
    }
}

pub fn kind_label(target: &ConnectionTarget, language: Language) -> (caption: Caption)
    ensures
        caption == (Caption::Entry { language, key: kind_key(*target) }),
{
    language.text(
        match target {
            ConnectionTarget::Tcp { .. } => Text::Network,
            ConnectionTarget::Serial { .. } => Text::Serial,
        },
    )
}

/// Whether a target is another without the white space around its host. A path
/// belongs to the operating system and stays as it is.
pub open spec fn is_normalized(after: ConnectionTarget, before: ConnectionTarget) -> bool {
    match (after, before) {
        (
            ConnectionTarget::Tcp { host: a, port: p },
            ConnectionTarget::Tcp { host: b, port: q },
        ) => a@ == text::trimmed(b@) && p == q,
        (ConnectionTarget::Serial { path: a }, ConnectionTarget::Serial { path: b }) => a == b,
        _ => false,
    }
}

pub fn normalized(target: &ConnectionTarget) -> (result: ConnectionTarget)
    ensures
        is_normalized(result, *target),
{
    match target {
        ConnectionTarget::Tcp { host, port } => ConnectionTarget::Tcp {
            host: trim(host.as_str()),
            port: *port,
        },
        ConnectionTarget::Serial { path } => ConnectionTarget::Serial { path: path.clone() },
    }
}

/// What a user does with the fields.
#[derive(Debug)]
pub enum TargetEdit {
    /// Switch between network and serial.
    Serial(bool),
    Host(String),
    Port(u16),
    Path(String),
    /// Take the path of a listed port.
    Listed(usize),
    CancelLookup,
}

/// Carry out an edit of the fields. Another kind starts over and gives up the
/// lookup of ports. Fields of the other kind are not there to edit.
pub fn edit(target: &mut ConnectionTarget, ports: &mut Lookup<Vec<SerialPortInfo>>, edit: TargetEdit)
    ensures
        match edit {
            TargetEdit::Serial(serial) => if serial == (*old(target) is Serial) {
                *final(target) == *old(target) && *final(ports) == *old(ports)
            } else {
                &&& *final(ports) == old(ports).cancelled()
                &&& if serial {
                    *final(target) matches ConnectionTarget::Serial { path } && path@.len() == 0
                } else {
                    *final(target) matches ConnectionTarget::Tcp { host, port } && host@.len() == 0
                        && port == crate::model::DEFAULT_PORT
                }
            },
            TargetEdit::Host(host) => *final(ports) == *old(ports) && *final(target) == match *old(target) {
                ConnectionTarget::Tcp { port, .. } => ConnectionTarget::Tcp { host, port },
                serial => serial,
            },
            TargetEdit::Port(port) => *final(ports) == *old(ports) && *final(target) == match *old(target) {
                ConnectionTarget::Tcp { host, .. } => ConnectionTarget::Tcp { host, port },
                serial => serial,
            },
            TargetEdit::Path(path) => *final(ports) == *old(ports) && *final(target) == match *old(target) {
                ConnectionTarget::Serial { .. } => ConnectionTarget::Serial { path },
                network => network,
            },
            TargetEdit::Listed(index) => *final(ports) == *old(ports) && *final(target)
                == if *old(target) is Serial && old(ports).data is Some && index < old(ports).data->0@.len() {
                ConnectionTarget::Serial { path: old(ports).data->0@[index as int].path }
            } else {
                *old(target)
            },
            TargetEdit::CancelLookup => *final(target) == *old(target) && *final(ports) == if *old(target) is Serial {
                old(ports).cancelled()
            } else {
                *old(ports)
            },
        },
{
    let is_serial = matches!(target, ConnectionTarget::Serial { .. });
    match edit {
        TargetEdit::Serial(serial) => {
            if serial != is_serial {
                ports.cancel();
                *target = if serial {
                    ConnectionTarget::Serial { path: String::new() }
                } else {
                    ConnectionTarget::default()
                };
            }
        },
        TargetEdit::Host(host) => {
            let port: Option<u16> = match &*target {
                ConnectionTarget::Tcp { port, .. } => Some(*port),
                ConnectionTarget::Serial { .. } => None,
            };
            if let Some(port) = port {
                *target = ConnectionTarget::Tcp { host, port };
            }
        },
        TargetEdit::Port(port) => {
            let host: Option<String> = match &*target {
                ConnectionTarget::Tcp { host, .. } => Some(host.clone()),
                ConnectionTarget::Serial { .. } => None,
            };
            if let Some(host) = host {
                *target = ConnectionTarget::Tcp { host, port };
            }
        },
        TargetEdit::Path(path) => {
            if is_serial {
                *target = ConnectionTarget::Serial { path };
            }
        },
        TargetEdit::Listed(index) => {
            if is_serial {
                if let Some(entries) = &ports.data {
                    if index < entries.len() {
                        *target = ConnectionTarget::Serial { path: entries[index].path.clone() };
                    }
                }
            }
        },
        TargetEdit::CancelLookup => {
            if is_serial {
                ports.cancel();
            }
        },
    }
}

/// Normalizing a target twice changes nothing more.
pub proof fn law_normalizing_settles(
    first: ConnectionTarget,
    second: ConnectionTarget,
    target: ConnectionTarget,
)
    requires
        is_normalized(first, target),
        is_normalized(second, first),
    ensures
        second.same_as(first),
{
    if let ConnectionTarget::Tcp { host, .. } = target {
        text::law_trimming_settles(host@);
    }
}

/// A target is named by its kind.
pub proof fn law_targets_are_named_by_kind(
    target: &ConnectionTarget,
    language: Language,
    caption: Caption,
)
    requires
        call_ensures(kind_label, (target, language), caption),
    ensures
        *target is Tcp <==> caption == (Caption::Entry { language, key: Text::Network }),
        *target is Serial <==> caption == (Caption::Entry { language, key: Text::Serial }),
{
}

/// Normalizing keeps the kind, the port and a path, and takes the white space
/// off a host.
pub proof fn law_targets_are_normalized(target: &ConnectionTarget, result: ConnectionTarget)
    requires
        call_ensures(normalized, (target,), result),
    ensures
        *target is Tcp ==> result is Tcp && result->host@ == text::trimmed(target->host@)
            && result->port == target->port,
        *target is Serial ==> result is Serial && result->path@ == target->path@,
{
}

/// An edit changes the field that it names. Another kind of target starts over,
/// on the network with port 901, and gives up the lookup of ports. Fields of the
/// other kind cannot be edited.
pub proof fn law_edits_change_their_field(
    target: &mut ConnectionTarget,
    ports: &mut Lookup<Vec<SerialPortInfo>>,
    change: TargetEdit,
)
    requires
        call_ensures(edit, (target, ports, change), ()),
    ensures
        change matches TargetEdit::Serial(serial) ==> (*final(target) is Serial <==> serial),
        change == TargetEdit::Serial(false) && *old(target) is Serial ==> final(target)->port == 901
            && final(target)->host@.len() == 0,
        change == TargetEdit::Serial(true) && *old(target) is Tcp ==> final(target)->path@.len()
            == 0,
        change is Serial && (*final(target) is Serial) == (*old(target) is Serial) ==> *final(target) == *old(target) && *final(ports) == *old(ports),
        change matches TargetEdit::Host(host) && *old(target) is Tcp ==> *final(target) is Tcp
            && final(target)->port == old(target)->port,
        change is Host && *old(target) is Tcp ==> final(target)->host == change->Host_0,
        change is Port && *old(target) is Tcp ==> *final(target) is Tcp && final(target)->port
            == change->Port_0 && final(target)->host == old(target)->host,
        change is Path && *old(target) is Serial ==> *final(target) is Serial && final(target)->path
            == change->Path_0,
        (change is Host || change is Port) && *old(target) is Serial ==> *final(target) == *old(target),
        (change is Path || change is Listed) && *old(target) is Tcp ==> *final(target) == *old(target),
        change is Listed && *old(target) is Serial && old(ports).data is Some && change->Listed_0
            < old(ports).data->0@.len() ==> *final(target) is Serial && final(target)->path == old(ports).data->0@[change->Listed_0 as int].path,
        change is CancelLookup ==> *final(target) == *old(target),
{
}

/// Edits leave a lookup of ports alone, but for leaving the serial port, coming
/// to it, and giving it up there.
pub proof fn law_edits_give_up_lookups(
    target: &mut ConnectionTarget,
    ports: &mut Lookup<Vec<SerialPortInfo>>,
    change: TargetEdit,
)
    requires
        call_ensures(edit, (target, ports, change), ()),
    ensures
        ({
            let gives_up = change is Serial && change->Serial_0 != (*old(target) is Serial)
                || change is CancelLookup && *old(target) is Serial;
            &&& !gives_up ==> *final(ports) == *old(ports)
            &&& gives_up && old(ports).job is Some ==> final(ports).job is Some && final(ports).job->0.cancelled && final(ports).generation != old(ports).generation
            &&& gives_up && old(ports).job is None ==> *final(ports) == *old(ports)
            &&& final(ports).data == old(ports).data
        }),
{
}

} // verus!
