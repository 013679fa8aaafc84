//! What the rig knows of its devices besides the displays that are live right now.

use crate::device::{DeviceKey, DeviceKeyView};
use vstd::prelude::*;

verus! {

/// Whether a configured device may be used.
#[derive(Clone, Copy, Debug, PartialEq, Eq, Structural)]
pub enum ConfiguredDeviceMode {
    /// The device is in use.
    Managed,
    /// The device has been taken out of use.
    Offline,
}

/// The devices that someone configured, each with its mode.
#[derive(Debug)]
pub struct HardwareInventory {
    configured: Vec<(DeviceKey, ConfiguredDeviceMode)>,
}

/// The mode of the last entry for `key`.
spec fn configured_mode(
    configured: Seq<(DeviceKey, ConfiguredDeviceMode)>,
    key: DeviceKeyView,
) -> Option<ConfiguredDeviceMode>
    decreases configured.len(),
{
    if configured.len() == 0 {
        None
    } else if configured.last().0@ == key {
        Some(configured.last().1)
    } else {
        configured_mode(configured.drop_last(), key)
    }
}

impl HardwareInventory {
    /// The mode that a device is configured with.
    pub closed spec fn mode_of(&self, key: DeviceKeyView) -> Option<ConfiguredDeviceMode> {
        configured_mode(self.configured@, key)
    }

    /// An inventory without configured devices.
    pub fn new() -> (result: Self)
        ensures
            forall|key: DeviceKeyView| #[trigger] result.mode_of(key) is None,
    {
        HardwareInventory { configured: Vec::new() }
    }

    /// Configure a device with this mode, in place of any earlier one.
    pub fn configure(&mut self, key: DeviceKey, mode: ConfiguredDeviceMode)
        ensures
            final(self).mode_of(key@) == Some(mode),
            forall|other: DeviceKeyView|
                other != key@ ==> #[trigger] final(self).mode_of(other) == old(self).mode_of(other),
    {
        let ghost before = self.configured@;
        self.configured.push((key, mode));
        assert(self.configured@.drop_last() =~= before);
    }

    /// The mode that a device is configured with.
    pub fn configured_device(&self, key: &DeviceKey) -> (result: Option<ConfiguredDeviceMode>)
        ensures
            result == self.mode_of(key@),
    {
        let mut remaining: usize = self.configured.len();
        assert(self.configured@.take(remaining as int) =~= self.configured@);
        while remaining > 0
            invariant
                remaining <= self.configured@.len(),
                configured_mode(self.configured@, key@) == configured_mode(
                    self.configured@.take(remaining as int),
                    key@,
                ),
            decreases remaining,
        {
            assert(self.configured@.take(remaining as int).drop_last() =~= self.configured@.take(
                remaining - 1,
            ));
            if self.configured[remaining - 1].0 == *key {
                return Some(self.configured[remaining - 1].1);
            }
            remaining -= 1;
        }
        None
    }
}

/// The devices that some reporter has made known.
#[derive(Debug)]
pub struct KnownDevices {
    keys: Vec<DeviceKey>,
}

impl View for KnownDevices {
    type V = Set<DeviceKeyView>;

    closed spec fn view(&self) -> Set<DeviceKeyView> {
        self.keys@.map_values(|key: DeviceKey| key@).to_set()
    }
}

impl KnownDevices {
    /// No device is known.
    pub fn new() -> (result: Self)
        ensures
            result@ == Set::<DeviceKeyView>::empty(),
    {
        let result = KnownDevices { keys: Vec::new() };
        assert(result@ =~= Set::<DeviceKeyView>::empty());
        result
    }

    /// Remember a device from now on.
    pub fn retain(&mut self, key: DeviceKey)
        ensures
            final(self)@ == old(self)@.insert(key@),
    {
        let ghost before = self.keys@.map_values(|key: DeviceKey| key@);
        let ghost added = key@;
        self.keys.push(key);
        proof {
            let after = self.keys@.map_values(|key: DeviceKey| key@);
            assert(after =~= before.push(added));
            assert forall|other: DeviceKeyView| after.contains(other) == (before.contains(other)
                || other == added) by {
                if before.contains(other) {
                    let i = choose|i: int| 0 <= i < before.len() && before[i] == other;
                    assert(after[i] == other);
                }
                if other == added {
                    assert(after[before.len() as int] == other);
                }
            }
            assert(after.to_set() =~= before.to_set().insert(added));
        }
    }

    /// Whether a device is known.
    pub fn is_known(&self, key: &DeviceKey) -> (result: bool)
        ensures
            result == self@.contains(key@),
    {
        let ghost views = self.keys@.map_values(|key: DeviceKey| key@);
        let mut index: usize = 0;
        while index < self.keys.len()
            invariant
                index <= self.keys@.len(),
                views == self.keys@.map_values(|key: DeviceKey| key@),
                forall|i: int| 0 <= i < index ==> #[trigger] views[i] != key@,
            decreases self.keys@.len() - index,
        {
            if self.keys[index] == *key {
                assert(views[index as int] == key@);
                return true;
            }
            assert(views[index as int] == self.keys@[index as int]@);
            index += 1;
        }
        assert(!views.contains(key@));
        false
    }
}

} // verus!
