//! Output-device enumeration as the engine sees it: plain names. The host
//! asks its audio library for the device list and hands the names in; the
//! shaping of the answer is done here.

use vstd::prelude::*;

verus! {

/// One output device, by name.
pub struct AudioDevice {
    pub name: String,
}

/// The answer to a device enumeration: every output device, and the default
/// one when the host has any.
pub struct AudioDevices {
    pub devices: Vec<AudioDevice>,
    pub default: Option<AudioDevice>,
}

/// Shape an enumeration answer from the device names, in order, and the
/// default device's name.
pub fn devices_from_names(names: &Vec<String>, default: Option<String>) -> (r: AudioDevices)
    ensures
        r.devices@.len() == names@.len(),
        forall|i: int| 0 <= i < names@.len() ==> r.devices@[i].name == names@[i],
        r.default is Some <==> default is Some,
        default matches Option::Some(d) ==> r.default matches Option::Some(a) && a.name == d,
{
    let mut devices: Vec<AudioDevice> = Vec::new();
    let mut i: usize = 0;
    while i < names.len()
        invariant
            i <= names@.len(),
            devices@.len() == i,
            forall|j: int| 0 <= j < i ==> devices@[j].name == names@[j],
        decreases names@.len() - i,
    {
        devices.push(AudioDevice { name: names[i].clone() });
        i = i + 1;
    }
    let default_device = match default {
        Option::Some(d) => Option::Some(AudioDevice { name: d }),
        Option::None => Option::None,
    };
    AudioDevices { devices, default: default_device }
}

} // verus!
