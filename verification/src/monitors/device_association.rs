//! Exact bridge from display keys to the current monitors.

use super::identity::{
    equal_digests_are_equal_fingerprints, DisplayIdentity, DisplayIdentityEvidenceView,
};
use super::topology::{
    equal_descriptors_agree_in_every_part, same_descriptor, InstalledMonitor, MonitorDescriptor, Monitors};
use super::topology_change::enumerated_evidence;
use crate::device::{
    DeviceIdView, DeviceKey, DeviceKeyView, PlatformDeviceHandle, PlatformReportView, ReportedId, SchemeName,
};
use crate::inventory::{HardwareInventory, KnownDevices};
use crate::persistence::window_state::{
    a_saved_fingerprint_keeps_its_digest, live_identity, PersistedDisplayIdentityV4,
};
use crate::platform::{classify_display_key, display_key, DisplayKeyClassification};
use crate::reporter::{
    edid_serial_scheme, edid_serial_scheme_name, is_record_of, DeviceRecord, ReportedAs,
};
use crate::scale::encodings_equal;
use vstd::prelude::*;
use vstd::std_specs::cmp::PartialEqSpecImpl;

verus! {

/// The live monitor that one key names.
#[derive(Debug)]
pub struct LiveMonitorAssociation {
    pub monitor_entity: u64,
    pub descriptor: MonitorDescriptor,
    pub display_identity: DisplayIdentity,
    pub platform_device_handle: PlatformDeviceHandle,
}

/// Current exact association from a reporter-issued display key to a monitor.
///
/// Every key names one monitor. Nothing in it depends on enumeration order.
#[derive(Debug)]
pub struct MonitorDeviceAssociation {
    live_by_device: Vec<(DeviceKey, LiveMonitorAssociation)>,
}

/// Result of resolving a current monitor to one reporter-issued key.
#[derive(Debug)]
pub enum MonitorDeviceKeyLookup {
    /// One reporter-issued device key exactly names the current monitor.
    Exact(DeviceKey),
    /// No single reporter-issued key can safely name the requested monitor.
    Unresolved,
}

/// The key that a lookup found.
pub open spec fn key_view(lookup: MonitorDeviceKeyLookup) -> Option<DeviceKeyView> {
    match lookup {
        MonitorDeviceKeyLookup::Exact(key) => Some(key@),
        MonitorDeviceKeyLookup::Unresolved => None,
    }
}

/// Result of asking for the process-local handle of one durable display key.
#[derive(Debug)]
pub enum MonitorReportedHandleLookup {
    /// The durable display key names one live monitor carrying a reported platform handle.
    Exact(ReportedId),
    /// The durable key does not currently name one unambiguous live monitor.
    NoCurrentLiveMonitor,
    /// The monitor is live, but its platform report carries no handle another provider can join.
    LiveMonitorWithoutReportedHandle,
}

impl PartialEq for MonitorReportedHandleLookup {
    fn eq(&self, other: &Self) -> (same: bool) {
        match (self, other) {
            (
                MonitorReportedHandleLookup::Exact(id),
                MonitorReportedHandleLookup::Exact(other_id),
            ) => id == other_id,
            (
                MonitorReportedHandleLookup::NoCurrentLiveMonitor,
                MonitorReportedHandleLookup::NoCurrentLiveMonitor,
            ) => true,
            (
                MonitorReportedHandleLookup::LiveMonitorWithoutReportedHandle,
                MonitorReportedHandleLookup::LiveMonitorWithoutReportedHandle,
            ) => true,
            _ => false,
        }
    }
}

impl PartialEqSpecImpl for MonitorReportedHandleLookup {
    open spec fn obeys_eq_spec() -> bool {
        true
    }

    open spec fn eq_spec(&self, other: &Self) -> bool {
        match (self, other) {
            (
                MonitorReportedHandleLookup::Exact(id),
                MonitorReportedHandleLookup::Exact(other_id),
            ) => id@ == other_id@,
            (
                MonitorReportedHandleLookup::NoCurrentLiveMonitor,
                MonitorReportedHandleLookup::NoCurrentLiveMonitor,
            ) => true,
            (
                MonitorReportedHandleLookup::LiveMonitorWithoutReportedHandle,
                MonitorReportedHandleLookup::LiveMonitorWithoutReportedHandle,
            ) => true,
            _ => false,
        }
    }
}

/// Result of resolving a durable display key to live geometry.
#[derive(Clone, Copy, Debug)]
pub enum MonitorDeviceLookup {
    /// The exact key currently names this monitor.
    Live { monitor_entity: u64, descriptor: MonitorDescriptor },
    /// The key is known, but no current topology entry names a live monitor for it.
    KnownWithoutLiveMonitor,
    /// No accepted reporter has retained this key during the current process.
    UnknownDevice,
}

impl PartialEq for MonitorDeviceLookup {
    fn eq(&self, other: &Self) -> (same: bool) {
        match (self, other) {
            (
                MonitorDeviceLookup::Live { monitor_entity, descriptor },
                MonitorDeviceLookup::Live {
                    monitor_entity: other_entity,
                    descriptor: other_descriptor,
                },
            ) => *monitor_entity == *other_entity && descriptor == other_descriptor,
            (
                MonitorDeviceLookup::KnownWithoutLiveMonitor,
                MonitorDeviceLookup::KnownWithoutLiveMonitor,
            ) => true,
            (MonitorDeviceLookup::UnknownDevice, MonitorDeviceLookup::UnknownDevice) => true,
            _ => false,
        }
    }
}

impl PartialEqSpecImpl for MonitorDeviceLookup {
    open spec fn obeys_eq_spec() -> bool {
        true
    }

    open spec fn eq_spec(&self, other: &Self) -> bool {
        match (self, other) {
            (
                MonitorDeviceLookup::Live { monitor_entity, descriptor },
                MonitorDeviceLookup::Live {
                    monitor_entity: other_entity,
                    descriptor: other_descriptor,
                },
            ) => *monitor_entity == *other_entity && same_descriptor(
                *descriptor,
                *other_descriptor,
            ),
            (
                MonitorDeviceLookup::KnownWithoutLiveMonitor,
                MonitorDeviceLookup::KnownWithoutLiveMonitor,
            ) => true,
            (MonitorDeviceLookup::UnknownDevice, MonitorDeviceLookup::UnknownDevice) => true,
            _ => false,
        }
    }
}

/// The durable key of an installed monitor, if its evidence supplies one.
pub open spec fn key_of_installed(monitor: InstalledMonitor) -> Option<DeviceKeyView> {
    display_key(monitor.device_evidence@, edid_serial_scheme_name())
}

/// Whether the monitor at `index` has this key and no other monitor has it.
pub open spec fn only_monitor_with_key(
    monitors: Seq<InstalledMonitor>,
    index: int,
    key: DeviceKeyView,
) -> bool {
    &&& 0 <= index < monitors.len()
    &&& key_of_installed(monitors[index]) == Some(key)
    &&& forall|other: int|
        0 <= other < monitors.len() && other != index ==> key_of_installed(
            #[trigger] monitors[other],
        ) != Some(key)
}

/// Whether an association is that of an installed monitor.
pub open spec fn associates(live: LiveMonitorAssociation, monitor: InstalledMonitor) -> bool {
    &&& live.monitor_entity == monitor.entity
    &&& live.descriptor == monitor.descriptor
    &&& live.display_identity == monitor.legacy_identity
    &&& live.platform_device_handle == monitor.device_evidence.platform_device_handle
}

/// Where `key` is listed.
spec fn is_listed_at(
    entries: Seq<(DeviceKey, LiveMonitorAssociation)>,
    index: int,
    key: DeviceKeyView,
) -> bool {
    0 <= index < entries.len() && entries[index].0@ == key
}

spec fn keys_are_distinct(entries: Seq<(DeviceKey, LiveMonitorAssociation)>) -> bool {
    forall|i: int, j: int|
        0 <= i < entries.len() && 0 <= j < entries.len() && i != j
            ==> #[trigger] entries[i].0@ != #[trigger] entries[j].0@
}

/// What a live monitor is looked up by.
#[derive(Clone, Copy, Debug)]
pub enum LiveMonitorEvidence {
    /// Its geometry and adapter data.
    Descriptor(MonitorDescriptor),
    /// The identity in an old state file.
    LegacyIdentity(PersistedDisplayIdentityV4),
}

/// Whether a live monitor answers to the evidence; an anonymous identity is nobody's.
pub open spec fn monitor_answers_to(
    live: LiveMonitorAssociation,
    evidence: LiveMonitorEvidence,
) -> bool {
    match evidence {
        LiveMonitorEvidence::Descriptor(descriptor) => same_descriptor(live.descriptor, descriptor),
        LiveMonitorEvidence::LegacyIdentity(identity) => identity is Fingerprinted
            && live.display_identity == live_identity(identity),
    }
}

/// The geometry that a display is listed with last.
pub open spec fn last_listed(
    live: Seq<(DeviceKey, MonitorDescriptor)>,
    key: DeviceKeyView,
) -> Option<MonitorDescriptor>
    decreases live.len(),
{
    if live.len() == 0 {
        None
    } else if live.last().0@ == key {
        Some(live.last().1)
    } else {
        last_listed(live.drop_last(), key)
    }
}

impl MonitorDeviceAssociation {
    /// Every key names one monitor.
    pub closed spec fn wf(&self) -> bool {
        keys_are_distinct(self.live_by_device@)
    }

    /// The live monitor that `key` names.
    pub closed spec fn live(&self, key: DeviceKeyView) -> Option<LiveMonitorAssociation> {
        if exists|i: int| is_listed_at(self.live_by_device@, i, key) {
            Some(
                self.live_by_device@[choose|i: int| is_listed_at(self.live_by_device@, i, key)].1,
            )
        } else {
            None
        }
    }

    /// Whether the live monitor that `key` names answers to the evidence.
    pub open spec fn answers(&self, key: DeviceKeyView, evidence: LiveMonitorEvidence) -> bool {
        self.live(key) matches Some(live) && monitor_answers_to(live, evidence)
    }

    /// Whether `key` is the only one whose live monitor answers to the evidence.
    pub open spec fn is_only_key(&self, key: DeviceKeyView, evidence: LiveMonitorEvidence) -> bool {
        self.answers(key, evidence) && forall|other: DeviceKeyView| #[trigger]
            self.answers(other, evidence) ==> other == key
    }

    /// The only key whose live monitor answers to the evidence, if there is one.
    pub open spec fn only_key(&self, evidence: LiveMonitorEvidence) -> Option<DeviceKeyView> {
        if exists|key: DeviceKeyView| self.is_only_key(key, evidence) {
            Some(choose|key: DeviceKeyView| self.is_only_key(key, evidence))
        } else {
            None
        }
    }

    proof fn entry_is_live(&self, index: int)
        requires
            self.wf(),
            0 <= index < self.live_by_device@.len(),
        ensures
            self.live(self.live_by_device@[index].0@) == Some(self.live_by_device@[index].1),
    {
        let key = self.live_by_device@[index].0@;
        assert(is_listed_at(self.live_by_device@, index, key));
        let chosen = choose|i: int| is_listed_at(self.live_by_device@, i, key);
        assert(self.live_by_device@[chosen].0@ == key);
    }

    proof fn live_has_entry(&self, key: DeviceKeyView) -> (index: int)
        requires
            self.wf(),
            self.live(key) is Some,
        ensures
            is_listed_at(self.live_by_device@, index, key),
            self.live(key) == Some(self.live_by_device@[index].1),
    {
        choose|i: int| is_listed_at(self.live_by_device@, i, key)
    }

    /// No display is live.
    pub fn new() -> (result: Self)
        ensures
            result.wf(),
            forall|key: DeviceKeyView| #[trigger] result.live(key) is None,
    {
        MonitorDeviceAssociation { live_by_device: Vec::new() }
    }

    fn set(&mut self, device_key: DeviceKey, live: LiveMonitorAssociation)
        requires
            old(self).wf(),
        ensures
            final(self).wf(),
            forall|key: DeviceKeyView| #[trigger]
                final(self).live(key) == if key == device_key@ {
                    Some(live)
                } else {
                    old(self).live(key)
                },
    {
        let ghost before = *self;
        let ghost added = device_key@;
        let mut index: usize = 0;
        while index < self.live_by_device.len()
            invariant
                *self == before,
                before.wf(),
                added == device_key@,
                index <= before.live_by_device@.len(),
                forall|i: int|
                    0 <= i < index ==> #[trigger] before.live_by_device@[i].0@ != added,
            ensures
                index < before.live_by_device@.len() ==> before.live_by_device@[index as int].0@
                    == added,
            decreases before.live_by_device@.len() - index,
        {
            if self.live_by_device[index].0 == device_key {
                break;
            }
            index += 1;
        }
        let ghost place = index as int;
        if index < self.live_by_device.len() {
            assert(before.live_by_device@[place].0@ == added);
            self.live_by_device.set(index, (device_key, live));
        } else {
            self.live_by_device.push((device_key, live));
        }
        proof {
            let after = self.live_by_device@;
            assert(after[place].0@ == added);
            assert forall|i: int| 0 <= i < before.live_by_device@.len() && i != place implies after[i]
                == before.live_by_device@[i] by {}
            assert forall|i: int, j: int|
                0 <= i < after.len() && 0 <= j < after.len() && i != j implies (
            #[trigger] after[i]).0@ != (#[trigger] after[j]).0@ by {
                if place < before.live_by_device@.len() {
                    assert(after[i].0@ == before.live_by_device@[i].0@);
                    assert(after[j].0@ == before.live_by_device@[j].0@);
                } else if i < place && j < place {
                    assert(before.live_by_device@[i].0@ != before.live_by_device@[j].0@);
                }
            }
            assert forall|key: DeviceKeyView| #[trigger] self.live(key) == (if key == added {
                Some(live)
            } else {
                before.live(key)
            }) by {
                self.entry_is_live(place);
                if key != added {
                    if self.live(key) is Some {
                        let i = self.live_has_entry(key);
                        assert(i != place);
                        before.entry_is_live(i);
                    } else if before.live(key) is Some {
                        let i = before.live_has_entry(key);
                        assert(i != place);
                        self.entry_is_live(i);
                    }
                }
            }
        }
    }

    /// An association that names exactly these displays, whatever their evidence; a display that is
    /// listed again counts as it is listed last. All of them are behind one placeholder monitor.
    pub fn from_test_live_displays(
        live: Vec<(DeviceKey, MonitorDescriptor)>,
        placeholder: u64,
    ) -> (result: Self)
        ensures
            result.wf(),
            forall|key: DeviceKeyView|
                match last_listed(live@, key) {
                    Some(descriptor) => #[trigger] result.live(key) == Some(
                        LiveMonitorAssociation {
                            monitor_entity: placeholder,
                            descriptor,
                            display_identity: DisplayIdentity::Anonymous,
                            platform_device_handle: PlatformDeviceHandle::PlatformReportedNothing,
                        },
                    ),
                    None => result.live(key) is None,
                },
    {
        let mut result = Self::new();
        assert(live@.take(0) =~= Seq::empty());
        for display in iter: live
            invariant
                iter.seq() == live@,
                result.wf(),
                forall|key: DeviceKeyView|
                    match last_listed(live@.take(iter.index()), key) {
                        Some(descriptor) => #[trigger] result.live(key) == Some(
                            LiveMonitorAssociation {
                                monitor_entity: placeholder,
                                descriptor,
                                display_identity: DisplayIdentity::Anonymous,
                                platform_device_handle: PlatformDeviceHandle::PlatformReportedNothing,
                            },
                        ),
                        None => result.live(key) is None,
                    },
        {
            assert(live@.take(iter.index() + 1).drop_last() =~= live@.take(iter.index()));
            let (device_key, descriptor) = display;
            result.set(
                device_key,
                LiveMonitorAssociation {
                    monitor_entity: placeholder,
                    descriptor,
                    display_identity: DisplayIdentity::Anonymous,
                    platform_device_handle: PlatformDeviceHandle::PlatformReportedNothing,
                },
            );
        }
        assert(live@.take(live@.len() as int) =~= live@);
        result
    }

    /// Rebuild the bridge from one installed topology.
    ///
    /// A key that several monitors have is left out instead of choosing the first of them.
    pub fn refresh(&mut self, monitors: &Monitors)
        ensures
            final(self).wf(),
            forall|key: DeviceKeyView| #[trigger]
                final(self).live(key) is Some <==> exists|index: int|
                    only_monitor_with_key(monitors@, index, key),
            forall|key: DeviceKeyView, index: int| #[trigger]
                only_monitor_with_key(monitors@, index, key) ==> (final(self).live(
                    key,
                ) matches Some(live) && associates(live, monitors@[index])),
    {
        let scheme = match edid_serial_scheme() {
            Ok(scheme) => scheme,
            Err(_) => {
                self.live_by_device = Vec::new();
                return;
            },
        };
        let installed = monitors.installed();
        let mut entries: Vec<(DeviceKey, LiveMonitorAssociation)> = Vec::new();
        let ghost mut origin: Seq<int> = Seq::empty();
        let mut index: usize = 0;
        while index < installed.len()
            invariant
                index <= installed@.len(),
                installed@ == monitors@,
                scheme@ == edid_serial_scheme_name(),
                origin.len() == entries@.len(),
                forall|i: int|
                    0 <= i < entries@.len() ==> {
                        &&& 0 <= #[trigger] origin[i] < index
                        &&& only_monitor_with_key(installed@, origin[i], entries@[i].0@)
                        &&& associates(entries@[i].1, installed@[origin[i]])
                    },
                forall|i: int, j: int|
                    0 <= i < j < entries@.len() ==> #[trigger] origin[i] < #[trigger] origin[j],
                forall|place: int, key: DeviceKeyView|
                    place < index && #[trigger] only_monitor_with_key(installed@, place, key)
                        ==> origin.contains(place),
            decreases installed@.len() - index,
        {
            let monitor = &installed[index];
            let ghost before = origin;
            if let DisplayKeyClassification::Keyed(device_key) = classify_display_key(
                &monitor.device_evidence,
                &scheme,
            ) {
                if !has_other_monitor_with_key(installed, index, &device_key, &scheme) {
                    let ghost key = device_key@;
                    assert(only_monitor_with_key(installed@, index as int, key));
                    entries.push(
                        (
                            device_key,
                            LiveMonitorAssociation {
                                monitor_entity: monitor.entity,
                                descriptor: monitor.descriptor,
                                display_identity: monitor.legacy_identity,
                                platform_device_handle:
                                    monitor.device_evidence.platform_device_handle.clone(),
                            },
                        ),
                    );
                    proof {
                        origin = origin.push(index as int);
                        assert(origin[before.len() as int] == index);
                    }
                }
            }
            assert forall|place: int, key: DeviceKeyView|
                place < index + 1 && #[trigger] only_monitor_with_key(
                    installed@,
                    place,
                    key,
                ) implies origin.contains(place) by {
                if place < index {
                    assert(before.contains(place));
                    let i = choose|i: int| 0 <= i < before.len() && before[i] == place;
                    assert(origin[i] == place);
                }
            }
            index += 1;
        }
        self.live_by_device = entries;
        proof {
            let listed = self.live_by_device@;
            assert forall|i: int, j: int|
                0 <= i < listed.len() && 0 <= j < listed.len() && i != j implies (
            #[trigger] listed[i]).0@ != (#[trigger] listed[j]).0@ by {
                assert(origin[i] != origin[j]);
                assert(only_monitor_with_key(monitors@, origin[i], listed[i].0@));
                assert(only_monitor_with_key(monitors@, origin[j], listed[j].0@));
            }
            assert forall|key: DeviceKeyView, place: int| #[trigger]
                only_monitor_with_key(monitors@, place, key) implies (self.live(
                key,
            ) matches Some(live) && associates(live, monitors@[place])) by {
                assert(origin.contains(place));
                let i = choose|i: int| 0 <= i < origin.len() && origin[i] == place;
                assert(only_monitor_with_key(monitors@, origin[i], listed[i].0@));
                assert(listed[i].0@ == key);
                self.entry_is_live(i);
            }
            assert forall|key: DeviceKeyView| #[trigger] self.live(key) is Some implies exists|
                index: int,
            | only_monitor_with_key(monitors@, index, key) by {
                let i = self.live_has_entry(key);
                assert(0 <= origin[i] < monitors@.len());
                assert(only_monitor_with_key(monitors@, origin[i], key));
            }
        }
    }

    /// Resolve one display key without inventing a geometry-based or primary-monitor fallback.
    pub fn lookup(
        &self,
        devices: &KnownDevices,
        inventory: &HardwareInventory,
        device_key: &DeviceKey,
    ) -> (result: MonitorDeviceLookup)
        requires
            self.wf(),
        ensures
            result == match self.live(device_key@) {
                Some(live) => MonitorDeviceLookup::Live {
                    monitor_entity: live.monitor_entity,
                    descriptor: live.descriptor,
                },
                None => if devices@.contains(device_key@) || inventory.mode_of(
                    device_key@,
                ) is Some {
                    MonitorDeviceLookup::KnownWithoutLiveMonitor
                } else {
                    MonitorDeviceLookup::UnknownDevice
                },
            },
    {
        if let Some(live) = self.get(device_key) {
            return MonitorDeviceLookup::Live {
                monitor_entity: live.monitor_entity,
                descriptor: live.descriptor,
            };
        }
        if devices.is_known(device_key) || inventory.configured_device(device_key).is_some() {
            MonitorDeviceLookup::KnownWithoutLiveMonitor
        } else {
            MonitorDeviceLookup::UnknownDevice
        }
    }

    fn get(&self, device_key: &DeviceKey) -> (result: Option<&LiveMonitorAssociation>)
        requires
            self.wf(),
        ensures
            match result {
                Some(live) => self.live(device_key@) == Some(*live),
                None => self.live(device_key@) is None,
            },
    {
        let mut index: usize = 0;
        while index < self.live_by_device.len()
            invariant
                index <= self.live_by_device@.len(),
                self.wf(),
                forall|i: int|
                    0 <= i < index ==> !#[trigger] is_listed_at(
                        self.live_by_device@,
                        i,
                        device_key@,
                    ),
            decreases self.live_by_device@.len() - index,
        {
            if self.live_by_device[index].0 == *device_key {
                proof {
                    self.entry_is_live(index as int);
                }
                return Some(&self.live_by_device[index].1);
            }
            index += 1;
        }
        None
    }

    /// Live geometry of the monitor one durable display key currently names.
    pub fn live_descriptor(&self, device_key: &DeviceKey) -> (result: Option<MonitorDescriptor>)
        requires
            self.wf(),
        ensures
            result == match self.live(device_key@) {
                Some(live) => Some(live.descriptor),
                None => None,
            },
    {
        match self.get(device_key) {
            Some(live) => Some(live.descriptor),
            None => None,
        }
    }

    /// Resolve one current monitor descriptor to its reporter-issued key only when unique.
    pub fn device_for_descriptor(&self, descriptor: MonitorDescriptor) -> (result:
        MonitorDeviceKeyLookup)
        requires
            self.wf(),
        ensures
            key_view(result) == self.only_key(LiveMonitorEvidence::Descriptor(descriptor)),
    {
        self.device_key_matching(LiveMonitorEvidence::Descriptor(descriptor))
    }

    /// Resolve one durable display key to the exact process-local handle of its live monitor.
    pub fn reported_handle_for_device(&self, device_key: &DeviceKey) -> (result:
        MonitorReportedHandleLookup)
        requires
            self.wf(),
        ensures
            match self.live(device_key@) {
                Some(live) => match live.platform_device_handle@ {
                    PlatformReportView::Reported(handle) =>
                        result matches MonitorReportedHandleLookup::Exact(id) && id@ == handle,
                    _ => result is LiveMonitorWithoutReportedHandle,
                },
                None => result is NoCurrentLiveMonitor,
            },
    {
        match self.get(device_key) {
            Some(live) => match &live.platform_device_handle {
                PlatformDeviceHandle::Reported(reported_id) => MonitorReportedHandleLookup::Exact(
                    reported_id.clone(),
                ),
                PlatformDeviceHandle::PlatformHasNoConcept
                | PlatformDeviceHandle::PlatformReportedNothing =>
                    MonitorReportedHandleLookup::LiveMonitorWithoutReportedHandle,
            },
            None => MonitorReportedHandleLookup::NoCurrentLiveMonitor,
        }
    }

    /// Resolve one identity of an old state file to its reporter-issued key only when unique. It
    /// never derives a key from a persisted fingerprint.
    pub fn device_for_legacy_panel(&self, identity: PersistedDisplayIdentityV4) -> (result:
        MonitorDeviceKeyLookup)
        requires
            self.wf(),
        ensures
            key_view(result) == self.only_key(LiveMonitorEvidence::LegacyIdentity(identity)),
    {
        self.device_key_matching(LiveMonitorEvidence::LegacyIdentity(identity))
    }

    fn device_key_matching(&self, evidence: LiveMonitorEvidence) -> (result: MonitorDeviceKeyLookup)
        requires
            self.wf(),
        ensures
            key_view(result) == self.only_key(evidence),
    {
        let ghost entries = self.live_by_device@;
        let mut matched: Option<usize> = None;
        let mut index: usize = 0;
        while index < self.live_by_device.len()
            invariant
                index <= entries.len(),
                entries == self.live_by_device@,
                self.wf(),
                match matched {
                    Some(found) => found < index && monitor_answers_to(
                        entries[found as int].1,
                        evidence,
                    ) && forall|i: int|
                        0 <= i < index && i != found ==> !monitor_answers_to(
                            (#[trigger] entries[i]).1,
                            evidence,
                        ),
                    None => forall|i: int|
                        0 <= i < index ==> !monitor_answers_to((#[trigger] entries[i]).1, evidence),
                },
            decreases entries.len() - index,
        {
            let live = &self.live_by_device[index].1;
            let answers = match evidence {
                LiveMonitorEvidence::Descriptor(descriptor) => live.descriptor == descriptor,
                LiveMonitorEvidence::LegacyIdentity(identity) => match identity {
                    PersistedDisplayIdentityV4::Fingerprinted(_) => live.display_identity
                        == DisplayIdentity::from(identity),
                    PersistedDisplayIdentityV4::Anonymous => false,
                },
            };
            if answers {
                if let Some(found) = matched {
                    proof {
                        let first = entries[found as int].0@;
                        let second = entries[index as int].0@;
                        self.entry_is_live(found as int);
                        self.entry_is_live(index as int);
                        assert(self.answers(first, evidence));
                        assert(self.answers(second, evidence));
                        assert(first != second);
                    }
                    return MonitorDeviceKeyLookup::Unresolved;
                }
                matched = Some(index);
            }
            index += 1;
        }
        match matched {
            Some(found) => {
                proof {
                    self.entry_is_live(found as int);
                    assert forall|key: DeviceKeyView| #[trigger]
                        self.answers(key, evidence) implies key == entries[found as int].0@ by {
                        let i = self.live_has_entry(key);
                        assert(monitor_answers_to(entries[i].1, evidence));
                    }
                    assert(self.is_only_key(entries[found as int].0@, evidence));
                }
                MonitorDeviceKeyLookup::Exact(self.live_by_device[found].0.clone())
            },
            None => {
                proof {
                    assert forall|key: DeviceKeyView| !#[trigger] self.answers(key, evidence) by {
                        if self.answers(key, evidence) {
                            let i = self.live_has_entry(key);
                            assert(monitor_answers_to(entries[i].1, evidence));
                        }
                    }
                }
                MonitorDeviceKeyLookup::Unresolved
            },
        }
    }

    /// No live monitor answers to an anonymous identity, so none is selected by it.
    pub proof fn anonymous_target_selects_no_monitor(&self)
        ensures
            self.only_key(
                LiveMonitorEvidence::LegacyIdentity(PersistedDisplayIdentityV4::Anonymous),
            ) is None,
    {
    }
}

fn has_other_monitor_with_key(
    installed: &Vec<InstalledMonitor>,
    index: usize,
    device_key: &DeviceKey,
    scheme: &SchemeName,
) -> (result: bool)
    requires
        scheme@ == edid_serial_scheme_name(),
    ensures
        result == exists|other: int|
            0 <= other < installed@.len() && other != index && key_of_installed(
                #[trigger] installed@[other],
            ) == Some(device_key@),
{
    let mut other: usize = 0;
    while other < installed.len()
        invariant
            other <= installed@.len(),
            scheme@ == edid_serial_scheme_name(),
            forall|i: int|
                0 <= i < other && i != index ==> key_of_installed(#[trigger] installed@[i]) != Some(
                    device_key@,
                ),
        decreases installed@.len() - other,
    {
        if other != index {
            if let DisplayKeyClassification::Keyed(other_key) = classify_display_key(
                &installed[other].device_evidence,
                scheme,
            ) {
                if other_key == *device_key {
                    assert(key_of_installed(installed@[other as int]) == Some(device_key@));
                    return true;
                }
            }
        }
        other += 1;
    }
    false
}

/// The key under which a monitor is reported is the key under which it can be found: both come from
/// the same evidence.
pub proof fn reported_key_is_the_associated_key(
    monitor: InstalledMonitor,
    record: DeviceRecord,
    monitor_exists: bool,
)
    requires
        is_record_of(
            record,
            enumerated_evidence(monitor),
            monitor_exists,
            edid_serial_scheme_name(),
        ),
    ensures
        match key_of_installed(monitor) {
            Some(key) => record.reported_as matches ReportedAs::Keyed(reported) && reported@ == key,
            None => record.reported_as is MatchEvidenceOnly,
        },
{
}

/// A monitor is found by the serial that it reports, under the scheme of such serials, or else by the
/// fingerprint of what identifies it; without evidence it is not found at all.
pub proof fn a_monitor_is_found_by_its_own_evidence(monitor: InstalledMonitor)
    ensures
        key_of_installed(monitor) is None <==> monitor.device_evidence@.identity_evidence is Unavailable,
        key_of_installed(monitor) matches Some(key) ==> {
            &&& key.kind is Display
            &&& match key.id {
                DeviceIdView::Reported { scheme, value } => scheme == "edid-serial"@
                    && monitor.device_evidence@.identity_evidence
                    == DisplayIdentityEvidenceView::ReportedSerial(value),
                DeviceIdView::Synthesized { digest } => monitor.device_evidence@.identity_evidence
                    matches DisplayIdentityEvidenceView::Synthesized { display_fingerprint, .. }
                    && display_fingerprint@ == digest.0,
                DeviceIdView::Authored { .. } => false,
            }
        },
{
}

/// Where two monitors answer to one key, it names neither of them.
pub proof fn a_shared_key_names_no_monitor(
    monitors: Seq<InstalledMonitor>,
    first: int,
    second: int,
    key: DeviceKeyView,
    index: int,
)
    requires
        0 <= first < second < monitors.len(),
        key_of_installed(monitors[first]) == Some(key),
        key_of_installed(monitors[second]) == Some(key),
    ensures
        !only_monitor_with_key(monitors, index, key),
{
}

/// A key that only one monitor has names that monitor.
pub proof fn a_key_of_its_own_names_its_monitor(
    monitors: Seq<InstalledMonitor>,
    index: int,
    key: DeviceKeyView,
)
    requires
        0 <= index < monitors.len(),
        key_of_installed(monitors[index]) == Some(key),
        forall|other: int|
            0 <= other < monitors.len() && key_of_installed(#[trigger] monitors[other]) == Some(key)
                ==> other == index,
    ensures
        only_monitor_with_key(monitors, index, key),
{
}

/// What is associated with a monitor is its entity, its geometry, its identity and its handle.
pub proof fn an_association_is_all_of_its_monitor(
    live: LiveMonitorAssociation,
    monitor: InstalledMonitor,
)
    requires
        associates(live, monitor),
    ensures
        live.monitor_entity == monitor.entity,
        live.descriptor.index@ == monitor.descriptor.index@,
        live.descriptor.scale@ == monitor.descriptor.scale@,
        live.descriptor.physical_position == monitor.descriptor.physical_position,
        live.descriptor.physical_size == monitor.descriptor.physical_size,
        live.display_identity == monitor.legacy_identity,
        live.platform_device_handle@ == monitor.device_evidence@.platform_device_handle,
{
}

/// A live monitor answers to geometry that is its own in every part, and to a saved fingerprint that
/// has its own digest; an anonymous monitor answers to no identity.
pub proof fn a_monitor_answers_to_its_own_evidence(
    live: LiveMonitorAssociation,
    descriptor: MonitorDescriptor,
    identity: PersistedDisplayIdentityV4,
)
    ensures
        monitor_answers_to(live, LiveMonitorEvidence::Descriptor(descriptor)) <==> {
            &&& live.descriptor.index@ == descriptor.index@
            &&& encodings_equal(live.descriptor.scale@, descriptor.scale@)
            &&& live.descriptor.physical_position.x == descriptor.physical_position.x
            &&& live.descriptor.physical_position.y == descriptor.physical_position.y
            &&& live.descriptor.physical_size.x == descriptor.physical_size.x
            &&& live.descriptor.physical_size.y == descriptor.physical_size.y
        },
        monitor_answers_to(live, LiveMonitorEvidence::LegacyIdentity(identity)) <==> match (
            identity,
            live.display_identity,
        ) {
            (
                PersistedDisplayIdentityV4::Fingerprinted(saved),
                DisplayIdentity::Fingerprinted(found),
            ) => saved.0 == found@,
            _ => false,
        },
{
    equal_descriptors_agree_in_every_part(live.descriptor, descriptor);
    a_saved_fingerprint_keeps_its_digest(identity);
    if let PersistedDisplayIdentityV4::Fingerprinted(saved) = identity {
        if let DisplayIdentity::Fingerprinted(found) = live.display_identity {
            equal_digests_are_equal_fingerprints(
                found,
                live_identity(identity)->Fingerprinted_0,
            );
        }
    }
}

/// A key is found by evidence exactly where its monitor answers to it and no other live monitor does.
pub proof fn the_only_key_is_the_only_one(
    association: MonitorDeviceAssociation,
    evidence: LiveMonitorEvidence,
    key: DeviceKeyView,
    other: DeviceKeyView,
)
    ensures
        association.only_key(evidence) == Some(key) ==> {
            &&& association.live(key) matches Some(live) && monitor_answers_to(live, evidence)
            &&& (association.live(other) matches Some(live) && monitor_answers_to(live, evidence))
                ==> other == key
        },
        (association.live(key) matches Some(live) && monitor_answers_to(live, evidence))
            && association.only_key(evidence) != Some(key) ==> association.only_key(evidence) is None
            && exists|rival: DeviceKeyView| #[trigger]
            association.answers(rival, evidence) && rival != key,
{
    if association.only_key(evidence) == Some(key) {
        assert(association.is_only_key(key, evidence));
        if association.live(other) matches Some(live) && monitor_answers_to(live, evidence) {
            assert(association.answers(other, evidence));
        }
    }
    if association.answers(key, evidence) && association.only_key(evidence) != Some(key) {
        if association.only_key(evidence) is Some {
            assert(association.is_only_key(association.only_key(evidence)->0, evidence));
        }
        assert(!association.is_only_key(key, evidence));
    }
}

/// Whether `key` is listed at `index` and nowhere behind it.
pub open spec fn is_last_listing(
    live: Seq<(DeviceKey, MonitorDescriptor)>,
    index: int,
    key: DeviceKeyView,
) -> bool {
    &&& 0 <= index < live.len()
    &&& live[index].0@ == key
    &&& forall|later: int| index < later < live.len() ==> (#[trigger] live[later]).0@ != key
}

/// A display that is listed several times counts as it is listed last, and one that is not listed does
/// not count.
pub proof fn the_last_listing_counts(
    live: Seq<(DeviceKey, MonitorDescriptor)>,
    index: int,
    key: DeviceKeyView,
)
    ensures
        is_last_listing(live, index, key) ==> last_listed(live, key) == Some(live[index].1),
        (forall|place: int| 0 <= place < live.len() ==> (#[trigger] live[place]).0@ != key)
            ==> last_listed(live, key) is None,
    decreases live.len(),
{
    if live.len() > 0 {
        let rest = live.drop_last();
        let last = live.len() - 1;
        assert(live.last() == live[last]);
        assert forall|place: int| 0 <= place < last implies #[trigger] rest[place] == live[place] by {}
        the_last_listing_counts(rest, index, key);
        if is_last_listing(live, index, key) && index < last {
            assert(live[last].0@ != key);
            assert(is_last_listing(rest, index, key));
        }
    }
}

/// A monitor that a key names has that key, and no other monitor has it.
pub proof fn a_named_monitor_has_its_key(
    monitors: Seq<InstalledMonitor>,
    index: int,
    key: DeviceKeyView,
    other: int,
)
    requires
        only_monitor_with_key(monitors, index, key),
    ensures
        0 <= index < monitors.len(),
        key_of_installed(monitors[index]) == Some(key),
        0 <= other < monitors.len() && key_of_installed(monitors[other]) == Some(key) ==> other
            == index,
{
}

/// A key is looked up as what it is: live where it names a monitor, with that monitor's entity and
/// geometry; known where it does not and some reporter or the inventory has it; and unknown otherwise.
pub proof fn a_lookup_says_what_a_key_names(
    association: MonitorDeviceAssociation,
    devices: KnownDevices,
    inventory: HardwareInventory,
    device_key: DeviceKey,
    result: MonitorDeviceLookup,
)
    requires
        association.wf(),
        call_ensures(
            MonitorDeviceAssociation::lookup,
            (&association, &devices, &inventory, &device_key),
            result,
        ),
    ensures
        result matches MonitorDeviceLookup::Live { monitor_entity, descriptor } ==> (
        association.live(device_key@) matches Some(live) && live.monitor_entity == monitor_entity
            && live.descriptor == descriptor),
        association.live(device_key@) is Some ==> result is Live,
        association.live(device_key@) is None ==> (result is KnownWithoutLiveMonitor
            <==> devices@.contains(device_key@) || inventory.mode_of(device_key@) is Some),
{
}

/// The handle of a key is that of the live monitor that it names, where that monitor reports one.
pub proof fn a_reported_handle_is_the_live_monitors(
    association: MonitorDeviceAssociation,
    device_key: DeviceKey,
    result: MonitorReportedHandleLookup,
)
    requires
        association.wf(),
        call_ensures(
            MonitorDeviceAssociation::reported_handle_for_device,
            (&association, &device_key),
            result,
        ),
    ensures
        result is NoCurrentLiveMonitor <==> association.live(device_key@) is None,
        association.live(device_key@) matches Some(live) ==> match result {
            MonitorReportedHandleLookup::Exact(id) => live.platform_device_handle@
                == PlatformReportView::Reported(id@),
            _ => !(live.platform_device_handle@ is Reported),
        },
{
}

} // verus!
