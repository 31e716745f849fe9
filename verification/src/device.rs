//! The devices attached to the host.

use vstd::prelude::*;
use crate::consts::MAX_CAMERA_PLUGIN;
use crate::types::{CameraState, Model};

verus! {

/// One entry of the native layer's device list, as the native layer wrote it:
/// state and model are still numbers.
#[derive(Debug, Clone, PartialEq, Eq, Hash)]
pub struct RawDeviceProperties {
    pub camera_state: i32,
    pub id: i32,
    pub path: Vec<u8>,
    pub camera_model: i32,
    pub sn: u32,
}

/// What the native layer reports of an attached device.
#[derive(Debug, Clone, PartialEq, Eq, Hash)]
pub struct DeviceProperties {
    pub camera_state: CameraState,
    pub id: i32,
    pub path: Vec<u8>,
    pub camera_model: Model,
    pub sn: u32,
}

/// A device as plain values.
pub struct Device {
    pub camera_state: CameraState,
    pub id: i32,
    pub path: Seq<u8>,
    pub camera_model: Model,
    pub sn: u32,
}

impl View for DeviceProperties {
    type V = Device;

    open spec fn view(&self) -> Device {
        Device {
            camera_state: self.camera_state,
            id: self.id,
            path: self.path@,
            camera_model: self.camera_model,
            sn: self.sn,
        }
    }
}

impl RawDeviceProperties {
    /// The device that the entry describes, if its state and its model are
    /// numbers that the native layer defines.
    pub open spec fn decoded(self) -> Option<Device> {
        match (
            CameraState::spec_from_code(self.camera_state),
            Model::spec_from_code(self.camera_model),
        ) {
            (Some(camera_state), Some(camera_model)) => Some(
                Device { camera_state, id: self.id, path: self.path@, camera_model, sn: self.sn },
            ),
            _ => None,
        }
    }

    /// Reads the entry.
    pub fn decode(&self) -> (r: Option<DeviceProperties>)
        ensures
            r is Some <==> self.decoded() is Some,
            r matches Some(device) ==> Some(device@) == self.decoded(),
    {
        match (CameraState::from_code(self.camera_state), Model::from_code(self.camera_model)) {
            (Some(camera_state), Some(camera_model)) => Some(
                DeviceProperties {
                    camera_state,
                    id: self.id,
                    path: self.path.clone(),
                    camera_model,
                    sn: self.sn,
                },
            ),
            _ => None,
        }
    }
}

/// How many entries of a list of `len` entries count when the native layer
/// reports `nb_devices` devices: that many, but at least none and at most all,
/// and never more than the native layer handles.
pub open spec fn reported(len: nat, nb_devices: i32) -> nat {
    if nb_devices <= 0 {
        0
    } else if nb_devices >= len || nb_devices >= MAX_CAMERA_PLUGIN {
        if len <= MAX_CAMERA_PLUGIN {
            len
        } else {
            MAX_CAMERA_PLUGIN as nat
        }
    } else {
        nb_devices as nat
    }
}

/// The devices that the entries describe, in the entries' order; an entry
/// that describes none is left out.
pub open spec fn devices_of(entries: Seq<RawDeviceProperties>) -> Seq<Device>
    decreases entries.len(),
{
    if entries.len() == 0 {
        Seq::<Device>::empty()
    } else {
        let before = devices_of(entries.drop_last());
        match entries.last().decoded() {
            Some(device) => before.push(device),
            None => before,
        }
    }
}

/// The views of a list of devices.
pub open spec fn device_views(devices: Seq<DeviceProperties>) -> Seq<Device> {
    devices.map_values(|d: DeviceProperties| d@)
}

/// The attached devices, from what the native layer wrote: the list it filled
/// and the number of devices it reported. Only the reported entries count, and
/// of those the ones that describe a device. With no device reported the
/// result is empty.
pub fn get_device_list(entries: &[RawDeviceProperties], nb_devices: i32) -> (r: Vec<
    DeviceProperties,
>)
    ensures
        device_views(r@) == devices_of(
            entries@.take(reported(entries@.len(), nb_devices) as int),
        ),
        nb_devices <= 0 ==> r@.len() == 0,
        r@.len() <= reported(entries@.len(), nb_devices) <= MAX_CAMERA_PLUGIN,
        (forall|i: int|
            0 <= i < reported(entries@.len(), nb_devices) ==> (#[trigger] entries@[i]).decoded()
                is Some) ==> r@.len() == reported(entries@.len(), nb_devices),
{
    let mut count: usize = if nb_devices <= 0 {
        0
    } else {
        nb_devices as usize
    };
    if count > entries.len() {
        count = entries.len();
    }
    if count > MAX_CAMERA_PLUGIN {
        count = MAX_CAMERA_PLUGIN;
    }
    let mut devices: Vec<DeviceProperties> = Vec::new();
    let mut i: usize = 0;
    while i < count
        invariant
            i <= count <= entries@.len(),
            devices@.len() <= i,
            device_views(devices@) == devices_of(entries@.take(i as int)),
        decreases count - i,
    {
        proof {
            assert(entries@.take(i + 1).drop_last() =~= entries@.take(i as int));
        }
        let ghost before = devices@;
        match entries[i].decode() {
            Some(device) => {
                devices.push(device);
                assert(device_views(devices@) =~= device_views(before).push(device@));
            },
            None => {},
        }
        i += 1;
    }
    proof {
        if forall|i: int| 0 <= i < count ==> (#[trigger] entries@[i]).decoded() is Some {
            lemma_devices_of_len(entries@.take(count as int));
        }
    }
    devices
}

/// Entries that all describe a device give as many devices as there are
/// entries: none is lost.
pub proof fn lemma_devices_of_len(entries: Seq<RawDeviceProperties>)
    requires
        forall|i: int| 0 <= i < entries.len() ==> (#[trigger] entries[i]).decoded() is Some,
    ensures
        devices_of(entries).len() == entries.len(),
    decreases entries.len(),
{
    if entries.len() > 0 {
        lemma_devices_of_len(entries.drop_last());
    }
}

} // verus!
