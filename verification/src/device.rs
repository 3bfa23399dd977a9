//! Device resolution: from an optional device name and what the audio host
//! offers to the device that a session records from.

use vstd::prelude::*;
use crate::error::RecorderError;
use crate::stream::{SampleFormat, StreamDefaults};
use crate::strings::text_view;

verus! {

/// What the audio host tells about one input device.
#[derive(Debug, Clone)]
pub struct InputDevice {
    /// The device's name, where it can be had.
    pub name: Option<String>,
    /// The device's default input configuration, where it has one.
    pub defaults: Option<StreamDefaults>,
}

/// The input devices of the audio host at one moment.
#[derive(Debug, Clone)]
pub struct HostSnapshot {
    /// The input devices in the order in which the host lists them. A host
    /// that cannot list them has none here.
    pub devices: Vec<InputDevice>,
    /// The system's default input device, if there is one.
    pub default_device: Option<InputDevice>,
}

/// The device a session records from.
#[derive(Debug, Clone, Copy, PartialEq, Eq, Structural)]
pub enum DeviceChoice {
    /// The listed device at this position, found by its name.
    Listed(usize),
    /// The system's default input device.
    Default,
}

impl InputDevice {
    /// Whether the device is known under exactly this name.
    pub open spec fn is_named(self, name: Seq<char>) -> bool {
        self.name matches Some(n) && n@ == name
    }
}

/// Whether some listed device has this name.
pub open spec fn is_listed(devices: Seq<InputDevice>, name: Seq<char>) -> bool {
    exists|i: int| 0 <= i < devices.len() && (#[trigger] devices[i]).is_named(name)
}

/// Whether `index` is the first listed device with this name.
pub open spec fn is_first_named(devices: Seq<InputDevice>, name: Seq<char>, index: int) -> bool {
    &&& 0 <= index < devices.len()
    &&& devices[index].is_named(name)
    &&& forall|j: int| 0 <= j < index ==> !(#[trigger] devices[j]).is_named(name)
}

/// The device that resolution of `requested` yields.
///
/// A requested name that is listed selects the first device of that name.
/// Without a name, or with one that is not listed, the default device is
/// taken, and only its absence is an error.
pub open spec fn resolved(
    requested: Option<Seq<char>>,
    devices: Seq<InputDevice>,
    has_default: bool,
) -> Result<DeviceChoice, RecorderError> {
    if requested is Some && is_listed(devices, requested->0) {
        Ok(
            DeviceChoice::Listed(
                (choose|i: int| is_first_named(devices, requested->0, i)) as usize,
            ),
        )
    } else if has_default {
        Ok(DeviceChoice::Default)
    } else {
        Err(RecorderError::NoInputDevice)
    }
}

/// Whether the default device stands in for a requested one that is not
/// listed.
pub open spec fn falls_back(requested: Option<Seq<char>>, devices: Seq<InputDevice>) -> bool {
    requested is Some && !is_listed(devices, requested->0)
}

impl HostSnapshot {
    /// The device that a choice stands for.
    pub open spec fn device_of(self, choice: DeviceChoice) -> InputDevice {
        match choice {
            DeviceChoice::Listed(i) => self.devices@[i as int],
            DeviceChoice::Default => self.default_device->0,
        }
    }

    /// The device that resolution of `requested` yields on this host.
    pub open spec fn resolve(self, requested: Option<Seq<char>>) -> Result<
        DeviceChoice,
        RecorderError,
    > {
        resolved(requested, self.devices@, self.default_device is Some)
    }
}

/// There is one first device of a name at most.
pub proof fn lemma_first_named_is_unique(
    devices: Seq<InputDevice>,
    name: Seq<char>,
    i: int,
    j: int,
)
    requires
        is_first_named(devices, name, i),
        is_first_named(devices, name, j),
    ensures
        i == j,
{
    if i < j {
        assert(!devices[i].is_named(name));
    } else if j < i {
        assert(!devices[j].is_named(name));
    }
}

/// Finds the first listed device with the given name.
pub fn find_device(devices: &Vec<InputDevice>, name: &String) -> (found: Option<usize>)
    ensures
        match found {
            Some(i) => is_first_named(devices@, name@, i as int),
            None => !is_listed(devices@, name@),
        },
{
    let mut i: usize = 0;
    while i < devices.len()
        invariant
            i <= devices.len(),
            forall|j: int| 0 <= j < i ==> !(#[trigger] devices@[j]).is_named(name@),
        decreases devices.len() - i,
    {
        let hit: bool = match &devices[i].name {
            Some(n) => *n == *name,
            None => false,
        };
        if hit {
            return Some(i);
        }
        i += 1;
    }
    None
}

/// Resolves the device of a session.
///
/// A name that no listed device has is no error: the default device is
/// taken instead.
pub fn resolve_device(requested: &Option<String>, host: &HostSnapshot) -> (outcome: Result<
    DeviceChoice,
    RecorderError,
>)
    ensures
        outcome == host.resolve(text_view(*requested)),
        outcome matches Ok(DeviceChoice::Listed(i)) ==> i < host.devices@.len(),
        outcome matches Ok(DeviceChoice::Default) ==> host.default_device is Some,
{
    if let Some(name) = requested {
        if let Some(i) = find_device(&host.devices, name) {
            proof {
                let c = choose|c: int| is_first_named(host.devices@, name@, c);
                lemma_first_named_is_unique(host.devices@, name@, i as int, c);
            }
            return Ok(DeviceChoice::Listed(i));
        }
    }
    if host.default_device.is_some() {
        Ok(DeviceChoice::Default)
    } else {
        Err(RecorderError::NoInputDevice)
    }
}

impl InputDevice {
    /// Whether the level monitor can listen to the device: it needs a
    /// default configuration with float samples.
    pub open spec fn is_monitorable(self) -> bool {
        self.defaults matches Some(d) && d.format == SampleFormat::F32
    }
}

/// Finds the next device that the level monitor can listen to, from the
/// position `from` on. The monitor takes the first such device whose stream
/// can be opened and started, and asks again from the next position when one
/// cannot.
pub fn next_monitor_device(devices: &Vec<InputDevice>, from: usize) -> (found: Option<usize>)
    ensures
        match found {
            Some(i) => {
                &&& from <= i < devices@.len()
                &&& devices@[i as int].is_monitorable()
                &&& forall|j: int| from <= j < i ==> !(#[trigger] devices@[j]).is_monitorable()
            },
            None => forall|j: int|
                from <= j < devices@.len() ==> !(#[trigger] devices@[j]).is_monitorable(),
        },
{
    let mut i: usize = from;
    while i < devices.len()
        invariant
            from <= i,
            forall|j: int| from <= j < i && j < devices@.len() ==> !(#[trigger] devices@[j]).is_monitorable(),
        decreases devices.len() - i,
    {
        let monitorable: bool = match devices[i].defaults {
            Some(d) => match d.format {
                SampleFormat::F32 => true,
                _ => false,
            },
            None => false,
        };
        if monitorable {
            return Some(i);
        }
        i += 1;
    }
    None
}

} // verus!
