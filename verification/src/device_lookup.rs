//! Explicit metadata lookups, separate from the instrument session.
//!
//! Each lookup runs on a thread of its own. These functions decide what its
//! results mean. Starting the thread and joining it happen outside.

use vstd::prelude::*;

use crate::model::ConnectionTarget;

verus! {

/// Most serial ports that are listed.
pub const MAX_PORTS: usize = 256;

/// A place for one snapshot that a lookup and the interface share.
#[derive(Debug)]
pub struct Slot<T> {
    /// Whether the other side holds the lock at the moment.
    pub locked: bool,
    pub value: Option<(u64, T)>,
}

impl<T> Slot<T> {
    /// The place after it was read.
    pub open spec fn read(self) -> Self {
        if self.locked {
            self
        } else {
            Slot { locked: false, value: None }
        }
    }
}

impl<T> Default for Slot<T> {
    fn default() -> (slot: Self)
        ensures
            !slot.locked,
            slot.value is None,
    {
        Slot { locked: false, value: None }
    }
}

/// A single replaceable full snapshot. Publishing never waits for the
/// interface.
#[derive(Debug, Clone, Copy, PartialEq, Eq, Structural)]
pub struct Publication {
    pub generation: u64,
}

impl Publication {
    /// Replace the snapshot, unless the interface is reading it.
    pub fn publish<T>(&self, slot: &mut Slot<T>, value: T)
        ensures
            *final(slot) == if old(slot).locked {
                *old(slot)
            } else {
                Slot { locked: false, value: Some((self.generation, value)) }
            },
    {
        if !slot.locked {
            slot.value = Some((self.generation, value));
        }
    }
}

/// A thread that was started and not yet joined.
#[derive(Debug, Clone, Copy, PartialEq, Eq, Structural)]
pub struct Job {
    pub generation: u64,
    pub cancelled: bool,
}

/// How a lookup's thread ended.
#[derive(Debug)]
pub enum Ending<T> {
    Data(T),
    Failed(String),
    Panicked,
}

#[derive(Debug)]
pub struct Lookup<T> {
    pub data: Option<T>,
    pub error: Option<String>,
    pub generation: u64,
    pub closed: bool,
    pub job: Option<Job>,
}

impl<T> Default for Lookup<T> {
    fn default() -> (lookup: Self)
        ensures
            lookup.is_fresh(),
    {
        Lookup { data: None, error: None, generation: 0, closed: false, job: None }
    }
}

/// The number after `generation`.
pub open spec fn successor(generation: u64) -> u64 {
    if generation == u64::MAX {
        0
    } else {
        (generation + 1) as u64
    }
}

fn next_generation(generation: u64) -> (next: u64)
    ensures
        next == successor(generation),
{
    if generation == u64::MAX {
        0
    } else {
        generation + 1
    }
}

/// What is told of a thread that ended without a result.
pub open spec fn stopped_words() -> Seq<char> {
    "Lookup worker stopped unexpectedly"@
}

impl<T> Lookup<T> {
    /// Never used.
    pub open spec fn is_fresh(self) -> bool {
        &&& self.data is None
        &&& self.error is None
        &&& self.generation == 0
        &&& !self.closed
        &&& self.job is None
    }

    pub fn is_pending(&self) -> (pending: bool)
        ensures
            pending == (self.job is Some),
    {
        self.job.is_some()
    }

    /// The lookup after the user gives it up: its thread is told, and what it
    /// still delivers belongs to no generation that counts.
    pub open spec fn cancelled(self) -> Self {
        match self.job {
            Some(job) => Lookup {
                generation: successor(self.generation),
                job: Some(Job { cancelled: true, ..job }),
                ..self
            },
            None => self,
        }
    }

    pub fn cancel(&mut self)
        ensures
            *final(self) == old(self).cancelled(),
    {
        if let Some(job) = self.job {
            self.job = Some(Job { generation: job.generation, cancelled: true });
            self.generation = next_generation(self.generation);
        }
    }

    /// Give the lookup up for good.
    pub fn shutdown(&mut self)
        ensures
            *final(self) == (Lookup { closed: true, ..old(self).cancelled() }),
    {
        self.closed = true;
        self.cancel();
    }

    /// The data after the slot was read.
    pub open spec fn data_after_slot(self, slot: Slot<T>) -> Option<T> {
        match slot.value {
            Some((generation, value)) => if !slot.locked && generation == self.generation {
                Some(value)
            } else {
                self.data
            },
            None => self.data,
        }
    }

    /// Whether an ending belongs to the generation that counts.
    pub open spec fn counts(self, ending: Option<Ending<T>>) -> bool {
        ending is Some && self.job is Some && self.job->0.generation == self.generation
    }

    /// Whether this is the lookup after polling: the latest snapshot is taken,
    /// then the result of a thread that has ended. Both count only for the
    /// current generation.
    pub open spec fn is_polled(self, before: Self, slot: Slot<T>, ending: Option<Ending<T>>) -> bool {
        &&& self.generation == before.generation
        &&& self.closed == before.closed
        &&& self.job == if ending is Some {
            None
        } else {
            before.job
        }
        &&& self.data == if before.counts(ending) && ending->0 is Data {
            Some(ending->0->Data_0)
        } else {
            before.data_after_slot(slot)
        }
        &&& if before.counts(ending) && !(ending->0 is Data) {
            &&& self.error is Some
            &&& match ending->0 {
                Ending::Failed(words) => self.error->0 == words,
                _ => self.error->0@ == stopped_words(),
            }
        } else {
            self.error == before.error
        }
    }

    /// Take what the thread has delivered. `ending` is its result once it has
    /// been joined.
    pub fn poll(&mut self, slot: &mut Slot<T>, ending: Option<Ending<T>>)
        requires
            ending is Some ==> old(self).job is Some,
        ensures
            final(self).is_polled(*old(self), *old(slot), ending),
            *final(slot) == old(slot).read(),
    {
        if !slot.locked {
            if let Some((generation, data)) = slot.value.take() {
                if generation == self.generation {
                    self.data = Some(data);
                }
            }
        }
        if let Some(ending) = ending {
            if let Some(job) = self.job.take() {
                if job.generation == self.generation {
                    match ending {
                        Ending::Data(data) => {
                            self.data = Some(data);
                        },
                        Ending::Failed(words) => {
                            self.error = Some(words);
                        },
                        Ending::Panicked => {
                            self.error = Some("Lookup worker stopped unexpectedly".to_owned());
                        },
                    }
                }
            }
        }
    }

    /// Whether a lookup can start: it was not given up for good, and no other
    /// is under way.
    pub open spec fn can_start(self) -> bool {
        !self.closed && self.job is None
    }

    /// Begin a lookup after polling, and say under which generation its thread
    /// publishes. Earlier results are dropped.
    pub fn start(&mut self, slot: &mut Slot<T>, ending: Option<Ending<T>>) -> (publication: Option<
        Publication,
    >)
        requires
            ending is Some ==> old(self).job is Some,
        ensures
            ({
                let free = !old(self).closed && (old(self).job is None || ending is Some);
                &&& publication == if free {
                    Some(Publication { generation: successor(old(self).generation) })
                } else {
                    None
                }
                &&& if free {
                    *final(self) == (Lookup::<T> {
                        data: None,
                        error: None,
                        generation: successor(old(self).generation),
                        closed: false,
                        job: None,
                    })
                } else {
                    final(self).is_polled(*old(self), *old(slot), ending)
                }
            }),
            *final(slot) == old(slot).read(),
    {
        self.poll(slot, ending);
        if self.closed || self.is_pending() {
            return None;
        }
        self.generation = next_generation(self.generation);
        self.data = None;
        self.error = None;
        Some(Publication { generation: self.generation })
    }

    /// The thread was started, or could not be.
    pub fn spawned(&mut self, result: Result<(), String>)
        ensures
            *final(self) == match result {
                Ok(_) => Lookup {
                    job: Some(Job { generation: old(self).generation, cancelled: false }),
                    ..*old(self)
                },
                Err(words) => Lookup { error: Some(words), ..*old(self) },
            },
    {
        match result {
            Ok(()) => {
                self.job = Some(Job { generation: self.generation, cancelled: false });
            },
            Err(words) => {
                self.error = Some(words);
            },
        }
    }
}

/// A serial port of this computer.
#[derive(Debug, PartialEq, Eq)]
pub struct SerialPortInfo {
    pub path: String,
    pub label: String,
}

/// As many ports as are listed.
pub fn listed_ports(ports: Vec<SerialPortInfo>) -> (listed: Vec<SerialPortInfo>)
    ensures
        listed@ == if ports@.len() > MAX_PORTS {
            ports@.take(MAX_PORTS as int)
        } else {
            ports@
        },
{
    let mut listed = ports;
    if listed.len() > MAX_PORTS {
        listed.truncate(MAX_PORTS);
        assert(listed@ =~= ports@.take(MAX_PORTS as int));
    }
    listed
}

/// An instrument that announced itself. Times are nanoseconds of the monotonic
/// clock.
#[derive(Debug, PartialEq, Eq)]
pub struct DiscoveredDevice {
    pub target: ConnectionTarget,
    pub hostname: String,
    pub product: String,
    pub observed_at: u128,
    pub expires_at: u128,
}

impl DiscoveredDevice {
    pub fn is_fresh(&self, now: u128) -> (fresh: bool)
        ensures
            fresh == (now < self.expires_at),
    {
        now < self.expires_at
    }
}

#[derive(Debug, PartialEq, Eq)]
pub struct DiscoverySnapshot {
    pub devices: Vec<DiscoveredDevice>,
}

/// The announcements among the first `count` that still hold.
pub open spec fn fresh_devices(devices: Seq<DiscoveredDevice>, now: u128, count: int) -> Seq<
    DiscoveredDevice,
>
    decreases count,
{
    if count <= 0 {
        seq![]
    } else if now < devices[count - 1].expires_at {
        fresh_devices(devices, now, count - 1).push(devices[count - 1])
    } else {
        fresh_devices(devices, now, count - 1)
    }
}

proof fn lemma_fresh_tail(devices: Seq<DiscoveredDevice>, now: u128, from: int)
    requires
        0 <= from < devices.len(),
    ensures
        now < devices[from].expires_at ==> fresh_from(devices, now, from) == seq![devices[from]]
            + fresh_from(devices, now, from + 1),
        now >= devices[from].expires_at ==> fresh_from(devices, now, from) == fresh_from(
            devices,
            now,
            from + 1,
        ),
{
    let tail = devices.skip(from);
    assert(tail.skip(1) =~= devices.skip(from + 1));
    lemma_fresh_front(tail, now, tail.len() as int);
}

/// The announcements from `from` on that still hold.
spec fn fresh_from(devices: Seq<DiscoveredDevice>, now: u128, from: int) -> Seq<DiscoveredDevice> {
    fresh_devices(devices.skip(from), now, devices.len() - from)
}

proof fn lemma_fresh_front(devices: Seq<DiscoveredDevice>, now: u128, count: int)
    requires
        0 < count <= devices.len(),
    ensures
        fresh_devices(devices, now, count) == if now < devices[0].expires_at {
            seq![devices[0]] + fresh_devices(devices.skip(1), now, count - 1)
        } else {
            fresh_devices(devices.skip(1), now, count - 1)
        },
    decreases count,
{
    if count > 1 {
        lemma_fresh_front(devices, now, count - 1);
        assert(devices.skip(1)[count - 2] == devices[count - 1]);
        let before = fresh_devices(devices.skip(1), now, count - 2);
        assert((seq![devices[0]] + before).push(devices[count - 1]) =~= seq![devices[0]]
            + before.push(devices[count - 1]));
    } else {
        reveal_with_fuel(fresh_devices, 2);
        assert(fresh_devices(devices, now, 1) =~= if now < devices[0].expires_at {
            seq![devices[0]] + Seq::<DiscoveredDevice>::empty()
        } else {
            seq![]
        });
    }
}

impl DiscoverySnapshot {
    /// Drop the announcements that have expired.
    pub fn retain_fresh(&mut self, now: u128)
        ensures
            final(self).devices@ == fresh_devices(
                old(self).devices@,
                now,
                old(self).devices@.len() as int,
            ),
    {
        let ghost all = self.devices@;
        let mut index: usize = self.devices.len();
        assert(fresh_from(all, now, all.len() as int) =~= seq![]);
        assert(self.devices@ =~= all.take(index as int) + fresh_from(all, now, index as int));
        while index > 0
            invariant
                index <= all.len(),
                index <= self.devices@.len(),
                self.devices@ == all.take(index as int) + fresh_from(all, now, index as int),
            decreases index,
        {
            index = index - 1;
            proof {
                lemma_fresh_tail(all, now, index as int);
            }
            assert(self.devices@[index as int] == all[index as int]);
            if !self.devices[index].is_fresh(now) {
                let _expired = self.devices.remove(index);
            }
            assert(self.devices@ =~= all.take(index as int) + fresh_from(all, now, index as int));
        }
        assert(all.skip(0) =~= all);
        assert(self.devices@ =~= fresh_devices(all, now, all.len() as int));
    }
}

/// Both lookups of the desktop.
#[derive(Debug)]
pub struct DeviceLookup {
    pub ports: Lookup<Vec<SerialPortInfo>>,
    pub discovery: Lookup<DiscoverySnapshot>,
    pub discovery_open: bool,
}

impl Default for DeviceLookup {
    fn default() -> (lookup: Self)
        ensures
            lookup.ports.is_fresh(),
            lookup.discovery.is_fresh(),
            !lookup.discovery_open,
    {
        DeviceLookup {
            ports: Lookup::default(),
            discovery: Lookup::default(),
            discovery_open: false,
        }
    }
}

impl DeviceLookup {
    /// Take what both threads have delivered, and drop expired announcements.
    pub fn poll(
        &mut self,
        port_slot: &mut Slot<Vec<SerialPortInfo>>,
        port_ending: Option<Ending<Vec<SerialPortInfo>>>,
        scan_slot: &mut Slot<DiscoverySnapshot>,
        scan_ending: Option<Ending<DiscoverySnapshot>>,
        now: u128,
    )
        requires
            port_ending is Some ==> old(self).ports.job is Some,
            scan_ending is Some ==> old(self).discovery.job is Some,
        ensures
            final(self).discovery_open == old(self).discovery_open,
            final(self).ports.is_polled(old(self).ports, *old(port_slot), port_ending),
            *final(port_slot) == old(port_slot).read(),
            *final(scan_slot) == old(scan_slot).read(),
            exists|polled: Lookup<DiscoverySnapshot>|
                {
                    &&& #[trigger] polled.is_polled(
                        old(self).discovery,
                        *old(scan_slot),
                        scan_ending,
                    )
                    &&& final(self).discovery == (Lookup {
                        data: final(self).discovery.data,
                        ..polled
                    })
                    &&& match polled.data {
                        Some(snapshot) => final(self).discovery.data is Some && final(self).discovery.data->0.devices@ == fresh_devices(
                            snapshot.devices@,
                            now,
                            snapshot.devices@.len() as int,
                        ),
                        None => final(self).discovery.data is None,
                    }
                },
    {
        self.ports.poll(port_slot, port_ending);
        self.discovery.poll(scan_slot, scan_ending);
        let ghost polled = self.discovery;
        if let Some(mut snapshot) = self.discovery.data.take() {
            snapshot.retain_fresh(now);
            self.discovery.data = Some(snapshot);
        }
        assert(polled.is_polled(old(self).discovery, *old(scan_slot), scan_ending));
    }

    /// Both lookups after they were given up for good.
    pub open spec fn given_up(self) -> Self {
        DeviceLookup {
            ports: Lookup { closed: true, ..self.ports.cancelled() },
            discovery: Lookup { closed: true, ..self.discovery.cancelled() },
            discovery_open: self.discovery_open,
        }
    }

    /// Give both lookups up for good.
    pub fn cancel(&mut self)
        ensures
            *final(self) == old(self).given_up(),
    {
        self.ports.shutdown();
        self.discovery.shutdown();
    }

    pub fn is_pending(&self) -> (pending: bool)
        ensures
            pending == (self.ports.job is Some || self.discovery.job is Some),
    {
        self.ports.is_pending() || self.discovery.is_pending()
    }
}

/// Nothing that a cancelled thread still delivers is taken over.
pub proof fn law_cancelled_lookups_deliver_nothing<T>(
    before: Lookup<T>,
    after: Lookup<T>,
    value: T,
    ending: Option<Ending<T>>,
)
    requires
        before.job is Some,
        before.job->0.generation == before.generation,
        after.is_polled(
            before.cancelled(),
            Slot { locked: false, value: Some((before.job->0.generation, value)) },
            ending,
        ),
    ensures
        after.data == before.data,
        after.error == before.error,
{
}

/// A lookup that was given up for good never starts again.
pub proof fn law_closed_lookups_stay_closed<T>(
    before: Lookup<T>,
    after: Lookup<T>,
    slot: Slot<T>,
    ending: Option<Ending<T>>,
)
    requires
        before.closed,
        after.is_polled(before, slot, ending),
    ensures
        !before.can_start(),
        !after.can_start(),
        !before.cancelled().can_start(),
{
}

/// A snapshot is published under its generation, and never waits: while the
/// other side reads, it is dropped.
pub proof fn law_snapshots_are_replaced<T>(
    publication: &Publication,
    slot: &mut Slot<T>,
    value: T,
)
    requires
        call_ensures(Publication::publish::<T>, (publication, slot, value), ()),
    ensures
        old(slot).locked ==> *final(slot) == *old(slot),
        !old(slot).locked ==> final(slot).value == Some((publication.generation, value)) && !final(slot).locked,
{
}

/// Giving up a lookup tells its thread and starts another generation, so that
/// nothing it delivers counts any more. Without a thread there is nothing to
/// give up. Given up for good, it stays closed.
pub proof fn law_given_up_lookups_change_generation<T>(
    lookup: &mut Lookup<T>,
    other: &mut Lookup<T>,
)
    requires
        call_ensures(Lookup::<T>::cancel, (lookup,), ()),
        call_ensures(Lookup::<T>::shutdown, (other,), ()),
    ensures
        old(lookup).job is None ==> *final(lookup) == *old(lookup),
        old(lookup).job is Some ==> final(lookup).job is Some && final(lookup).job->0.cancelled
            && final(lookup).job->0.generation == old(lookup).job->0.generation && final(lookup).generation != old(lookup).generation && final(lookup).data == old(lookup).data && final(lookup).error == old(lookup).error,
        old(lookup).job is Some && old(lookup).generation < u64::MAX ==> final(lookup).generation
            == old(lookup).generation + 1,
        final(other).closed,
        old(other).job is Some ==> final(other).job is Some && final(other).job->0.cancelled,
{
}

/// What a lookup takes over: a snapshot or the end of its thread, where they are
/// of the present generation. The end counts more than a snapshot, an error
/// keeps the data, and any end makes room for another lookup.
pub proof fn law_lookups_take_their_own_results<T>(
    lookup: &mut Lookup<T>,
    slot: &mut Slot<T>,
    ending: Option<Ending<T>>,
)
    requires
        ending is Some ==> old(lookup).job is Some,
        call_ensures(Lookup::<T>::poll, (lookup, slot, ending), ()),
    ensures
        ({
            let before = *old(lookup);
            let after = *final(lookup);
            let fresh = !old(slot).locked && old(slot).value is Some && (old(slot).value->0).0
                == before.generation;
            let counts = ending is Some && before.job->0.generation == before.generation;
            &&& counts && ending->0 is Data ==> after.data == Some(ending->0->Data_0)
            &&& !(counts && ending->0 is Data) && fresh ==> after.data == Some(
                (old(slot).value->0).1,
            )
            &&& !(counts && ending->0 is Data) && !fresh ==> after.data == before.data
            &&& counts && ending->0 is Failed ==> after.error == Some(ending->0->Failed_0)
            &&& counts && ending->0 is Panicked ==> after.error is Some && after.error->0@
                == "Lookup worker stopped unexpectedly"@
            &&& !counts || ending->0 is Data ==> after.error == before.error
            &&& ending is Some ==> after.job is None
            &&& ending is None ==> after.job == before.job
            &&& after.generation == before.generation && after.closed == before.closed
            &&& !old(slot).locked ==> final(slot).value is None
            &&& old(slot).locked ==> *final(slot) == *old(slot)
        }),
{
}

/// A lookup starts where none is under way and it was not given up for good: it
/// forgets earlier results and counts under a new generation.
pub proof fn law_lookups_start_afresh<T>(
    lookup: &mut Lookup<T>,
    slot: &mut Slot<T>,
    ending: Option<Ending<T>>,
    publication: Option<Publication>,
)
    requires
        ending is Some ==> old(lookup).job is Some,
        call_ensures(Lookup::<T>::start, (lookup, slot, ending), publication),
    ensures
        publication is Some <==> !old(lookup).closed && (old(lookup).job is None || ending is Some),
        publication is Some ==> final(lookup).data is None && final(lookup).error is None && final(lookup).generation == publication->0.generation && publication->0.generation != old(lookup).generation && final(lookup).job is None,
        publication is Some && old(lookup).generation < u64::MAX ==> publication->0.generation
            == old(lookup).generation + 1,
        publication is None ==> final(lookup).generation == old(lookup).generation,
{
}

/// A thread that was started runs under the present generation. One that could
/// not be started leaves its error.
pub proof fn law_started_lookups_run<T>(lookup: &mut Lookup<T>, result: Result<(), String>)
    requires
        call_ensures(Lookup::<T>::spawned, (lookup, result), ()),
    ensures
        result is Ok ==> final(lookup).job is Some && final(lookup).job->0.generation == old(lookup).generation && !final(lookup).job->0.cancelled && final(lookup).error == old(lookup).error,
        result is Err ==> final(lookup).error == Some(result->Err_0) && final(lookup).job == old(lookup).job,
        final(lookup).data == old(lookup).data,
        final(lookup).generation == old(lookup).generation,
{
}

/// Ports are listed as they come, 256 at most.
pub proof fn law_ports_are_listed_in_order(
    ports: Vec<SerialPortInfo>,
    listed: Vec<SerialPortInfo>,
    i: int,
)
    requires
        call_ensures(listed_ports, (ports,), listed),
    ensures
        ports@.len() <= 256 ==> listed@.len() == ports@.len(),
        ports@.len() > 256 ==> listed@.len() == 256,
        0 <= i < listed@.len() ==> listed@[i] == ports@[i],
{
}

proof fn lemma_fresh_devices(devices: Seq<DiscoveredDevice>, now: u128, count: int)
    requires
        0 <= count <= devices.len(),
    ensures
        forall|k: int|
            0 <= k < fresh_devices(devices, now, count).len() ==> now < (#[trigger] fresh_devices(
                devices,
                now,
                count,
            )[k]).expires_at && devices.take(count).contains(fresh_devices(devices, now, count)[k]),
        forall|i: int|
            0 <= i < count && now < (#[trigger] devices[i]).expires_at ==> fresh_devices(
                devices,
                now,
                count,
            ).contains(devices[i]),
        fresh_devices(devices, now, count).len() <= count,
    decreases count,
{
    if count > 0 {
        lemma_fresh_devices(devices, now, count - 1);
        let before = fresh_devices(devices, now, count - 1);
        let after = fresh_devices(devices, now, count);
        assert forall|i: int| 0 <= i < count && now < (#[trigger] devices[i]).expires_at implies after.contains(
            devices[i],
        ) by {
            if i < count - 1 {
                assert(before.contains(devices[i]));
                let k = choose|k: int| 0 <= k < before.len() && before[k] == devices[i];
                assert(after[k] == devices[i]);
            } else {
                assert(after[before.len() as int] == devices[i]);
            }
        }
        assert forall|k: int| 0 <= k < after.len() implies now < (#[trigger] after[k]).expires_at
            && devices.take(count).contains(after[k]) by {
            if k < before.len() {
                assert(after[k] == before[k]);
                let short = devices.take(count - 1);
                let i = choose|i: int| 0 <= i < short.len() && short[i] == before[k];
                assert(devices.take(count)[i] == after[k]);
            } else {
                assert(devices.take(count)[count - 1] == after[k]);
            }
        }
    }
}

/// Announcements are kept until they expire, and no longer.
pub proof fn law_expired_announcements_are_dropped(
    snapshot: &mut DiscoverySnapshot,
    now: u128,
    i: int,
    k: int,
)
    requires
        call_ensures(DiscoverySnapshot::retain_fresh, (snapshot, now), ()),
    ensures
        0 <= i < old(snapshot).devices@.len() && now < old(snapshot).devices@[i].expires_at
            ==> final(snapshot).devices@.contains(old(snapshot).devices@[i]),
        0 <= k < final(snapshot).devices@.len() ==> now < final(snapshot).devices@[k].expires_at
            && old(snapshot).devices@.contains(final(snapshot).devices@[k]),
        final(snapshot).devices@.len() <= old(snapshot).devices@.len(),
{
    let devices = old(snapshot).devices@;
    lemma_fresh_devices(devices, now, devices.len() as int);
    assert(devices.take(devices.len() as int) =~= devices);
}

/// An announcement holds until the moment that it names.
pub proof fn law_announcements_hold_until_they_expire(
    device: &DiscoveredDevice,
    now: u128,
    fresh: bool,
)
    requires
        call_ensures(DiscoveredDevice::is_fresh, (device, now), fresh),
    ensures
        fresh <==> now < device.expires_at,
{
}

/// Giving up both lookups closes both for good.
pub proof fn law_both_lookups_are_given_up(lookup: &mut DeviceLookup)
    requires
        call_ensures(DeviceLookup::cancel, (lookup,), ()),
    ensures
        final(lookup).ports.closed && final(lookup).discovery.closed,
        old(lookup).ports.job is Some ==> final(lookup).ports.job is Some && final(lookup).ports.job->0.cancelled,
        old(lookup).discovery.job is Some ==> final(lookup).discovery.job is Some && final(lookup).discovery.job->0.cancelled,
        final(lookup).discovery_open == old(lookup).discovery_open,
{
}

/// Both lookups take over what is theirs at once. Announcements that expired
/// meanwhile are dropped.
pub proof fn law_both_lookups_are_polled(
    lookup: &mut DeviceLookup,
    port_slot: &mut Slot<Vec<SerialPortInfo>>,
    port_ending: Option<Ending<Vec<SerialPortInfo>>>,
    scan_slot: &mut Slot<DiscoverySnapshot>,
    scan_ending: Option<Ending<DiscoverySnapshot>>,
    now: u128,
    i: int,
)
    requires
        port_ending is Some ==> old(lookup).ports.job is Some,
        scan_ending is Some ==> old(lookup).discovery.job is Some,
        call_ensures(
            DeviceLookup::poll,
            (lookup, port_slot, port_ending, scan_slot, scan_ending, now),
            (),
        ),
    ensures
        final(lookup).discovery_open == old(lookup).discovery_open,
        port_ending is Some ==> final(lookup).ports.job is None,
        port_ending is None ==> final(lookup).ports.job == old(lookup).ports.job,
        scan_ending is Some ==> final(lookup).discovery.job is None,
        scan_ending is None ==> final(lookup).discovery.job == old(lookup).discovery.job,
        port_ending is Some && port_ending->0 is Data && old(lookup).ports.job->0.generation == old(lookup).ports.generation ==> final(lookup).ports.data == Some(port_ending->0->Data_0),
        port_ending is Some && port_ending->0 is Failed && old(lookup).ports.job->0.generation
            == old(lookup).ports.generation ==> final(lookup).ports.error == Some(
            port_ending->0->Failed_0,
        ),
        scan_ending is Some && scan_ending->0 is Failed && old(lookup).discovery.job->0.generation
            == old(lookup).discovery.generation ==> final(lookup).discovery.error == Some(
            scan_ending->0->Failed_0,
        ),
        final(lookup).discovery.data is Some && 0 <= i < final(lookup).discovery.data->0.devices@.len() ==> now < final(lookup).discovery.data->0.devices@[i].expires_at,
        !old(port_slot).locked ==> final(port_slot).value is None,
        !old(scan_slot).locked ==> final(scan_slot).value is None,
        old(port_slot).locked ==> *final(port_slot) == *old(port_slot),
        old(scan_slot).locked ==> *final(scan_slot) == *old(scan_slot),
{
    let polled = choose|polled: Lookup<DiscoverySnapshot>|
        {
            &&& #[trigger] polled.is_polled(old(lookup).discovery, *old(scan_slot), scan_ending)
            &&& final(lookup).discovery == (Lookup {
                data: final(lookup).discovery.data,
                ..polled
            })
            &&& match polled.data {
                Some(snapshot) => final(lookup).discovery.data is Some && final(lookup).discovery.data->0.devices@ == fresh_devices(
                    snapshot.devices@,
                    now,
                    snapshot.devices@.len() as int,
                ),
                None => final(lookup).discovery.data is None,
            }
        };
    if polled.data is Some {
        lemma_fresh_devices(
            polled.data->0.devices@,
            now,
            polled.data->0.devices@.len() as int,
        );
    }
}

/// A lookup is pending while its thread runs. A new one has found nothing and
/// can be started.
pub proof fn law_lookups_are_pending_with_a_thread<T>(
    lookup: &Lookup<T>,
    pending: bool,
    both: &DeviceLookup,
    any: bool,
    fresh: DeviceLookup,
)
    requires
        call_ensures(Lookup::<T>::is_pending, (lookup,), pending),
        call_ensures(DeviceLookup::is_pending, (both,), any),
        call_ensures(DeviceLookup::default, (), fresh),
    ensures
        pending <==> lookup.job is Some,
        any <==> both.ports.job is Some || both.discovery.job is Some,
        fresh.ports.job is None && fresh.discovery.job is None && !fresh.discovery_open,
        fresh.ports.data is None && fresh.discovery.data is None,
        fresh.ports.error is None && fresh.discovery.error is None,
        !fresh.ports.closed && !fresh.discovery.closed,
        fresh.ports.generation == 0 && fresh.discovery.generation == 0,
{
}

/// Generations begin anew after the last one.
pub proof fn law_generations_begin_anew<T>(lookup: &mut Lookup<T>)
    requires
        old(lookup).job is Some,
        call_ensures(Lookup::<T>::cancel, (lookup,), ()),
    ensures
        old(lookup).generation == u64::MAX ==> final(lookup).generation == 0,
{
}

/// Starting a lookup reads the last snapshot, as polling does.
pub proof fn law_starting_reads_the_snapshot<T>(
    lookup: &mut Lookup<T>,
    slot: &mut Slot<T>,
    ending: Option<Ending<T>>,
    publication: Option<Publication>,
)
    requires
        ending is Some ==> old(lookup).job is Some,
        call_ensures(Lookup::<T>::start, (lookup, slot, ending), publication),
    ensures
        !old(slot).locked ==> final(slot).value is None,
        old(slot).locked ==> *final(slot) == *old(slot),
{
}

} // verus!
